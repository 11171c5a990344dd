use gbm::flags::{
    GBM_BO_USE_CURSOR, GBM_BO_USE_LINEAR, GBM_BO_USE_RENDERING, GBM_BO_USE_SCANOUT,
    GBM_BO_USE_WRITE,
};
use gbm::raw::{gbm_bo_format, gbm_bo_handle};
use gbm::{BoFlags, BoFormat};

#[test]
fn new_flags_are_empty() {
    assert_eq!(BoFlags::new().as_u32(), 0);
}

#[test]
fn each_setter_sets_its_bit() {
    assert_eq!(BoFlags::new().scanout(true).as_u32(), GBM_BO_USE_SCANOUT);
    assert_eq!(BoFlags::new().cursor(true).as_u32(), GBM_BO_USE_CURSOR);
    assert_eq!(BoFlags::new().rendering(true).as_u32(), GBM_BO_USE_RENDERING);
    assert_eq!(BoFlags::new().write(true).as_u32(), GBM_BO_USE_WRITE);
    assert_eq!(BoFlags::new().linear(true).as_u32(), GBM_BO_USE_LINEAR);
}

#[test]
fn setters_compose_by_or() {
    let f = BoFlags::new().scanout(true).write(true);
    assert_eq!(f.as_u32(), GBM_BO_USE_SCANOUT | GBM_BO_USE_WRITE);
    let g = f.rendering(true);
    assert_eq!(
        g.as_u32(),
        GBM_BO_USE_SCANOUT | GBM_BO_USE_WRITE | GBM_BO_USE_RENDERING
    );
}

#[test]
fn setter_clears_only_its_bit() {
    let f = BoFlags::new().scanout(true).linear(true).scanout(false);
    assert_eq!(f.as_u32(), GBM_BO_USE_LINEAR);
}

#[test]
fn set_inserts_and_removes_given_bits() {
    let f = BoFlags::new().set(GBM_BO_USE_CURSOR | GBM_BO_USE_WRITE, true);
    assert_eq!(f.as_u32(), GBM_BO_USE_CURSOR | GBM_BO_USE_WRITE);
    let g = f.set(GBM_BO_USE_CURSOR, false);
    assert_eq!(g.as_u32(), GBM_BO_USE_WRITE);
}

#[test]
fn format_codes_are_fixed() {
    assert_eq!(BoFormat::XRGB8888.as_u32(), 0);
    assert_eq!(BoFormat::ARGB8888.as_u32(), 1);
    assert_eq!(
        gbm_bo_format::GBM_BO_FORMAT_XRGB8888.code(),
        BoFormat::XRGB8888.as_u32()
    );
    assert_eq!(
        gbm_bo_format::GBM_BO_FORMAT_ARGB8888.code(),
        BoFormat::ARGB8888.as_u32()
    );
}

#[test]
fn format_round_trips_through_its_code() {
    assert_eq!(
        BoFormat::from_u32(BoFormat::XRGB8888.as_u32()),
        Some(BoFormat::XRGB8888)
    );
    assert_eq!(
        BoFormat::from_u32(BoFormat::ARGB8888.as_u32()),
        Some(BoFormat::ARGB8888)
    );
}

#[test]
fn unknown_format_code_is_rejected() {
    assert_eq!(BoFormat::from_u32(2), None);
    assert_eq!(BoFormat::from_u32(0xffff_ffff), None);
}

#[test]
fn handle_word_views() {
    let h = gbm_bo_handle(0x1_0000_002a);
    assert_eq!(h.u32(), 42);
    assert_eq!(h.s32(), 42);
    assert_eq!(h.u64(), 0x1_0000_002a);
    assert_eq!(h.s64(), 0x1_0000_002a);

    let all = gbm_bo_handle(u64::MAX);
    assert_eq!(all.u32(), u32::MAX);
    assert_eq!(all.s32(), -1);
    assert_eq!(all.s64(), -1);
    assert_eq!(all.u64(), u64::MAX);
}
