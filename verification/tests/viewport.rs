use curling_game::viewport::LayoutMode;
use curling_game::scalar::Scalar;

fn layout(width: f32, height: f32) -> LayoutMode {
    LayoutMode::from_dimensions(Scalar { bits: width.to_bits() }, Scalar { bits: height.to_bits() })
}

#[test]
fn layout_mode_desktop() {
    assert_eq!(layout(1400.0, 900.0), LayoutMode::Desktop);
    assert_eq!(layout(1920.0, 1080.0), LayoutMode::Desktop);
    assert_eq!(layout(1024.0, 768.0), LayoutMode::Desktop);
}

#[test]
fn layout_mode_tablet() {
    assert_eq!(layout(900.0, 600.0), LayoutMode::Tablet);
    assert_eq!(layout(768.0, 1024.0), LayoutMode::Tablet);
}

#[test]
fn layout_mode_mobile_portrait() {
    assert_eq!(layout(400.0, 800.0), LayoutMode::MobilePortrait);
    assert_eq!(layout(375.0, 812.0), LayoutMode::MobilePortrait);
}

#[test]
fn layout_mode_mobile_landscape() {
    assert_eq!(layout(700.0, 400.0), LayoutMode::MobileLandscape);
    assert_eq!(layout(600.0, 400.0), LayoutMode::MobileLandscape);
}

#[test]
fn layout_mode_square_mobile_is_landscape() {
    assert_eq!(layout(500.0, 500.0), LayoutMode::MobileLandscape);
    assert_eq!(layout(767.9, 2000.0), LayoutMode::MobilePortrait);
}

#[test]
fn layout_mode_flags() {
    assert!(LayoutMode::MobilePortrait.is_mobile());
    assert!(LayoutMode::MobileLandscape.is_mobile());
    assert!(!LayoutMode::Tablet.is_mobile());
    assert!(!LayoutMode::Desktop.is_mobile());
    assert!(LayoutMode::MobilePortrait.is_portrait());
    assert!(!LayoutMode::MobileLandscape.is_portrait());
    assert_eq!(LayoutMode::default(), LayoutMode::Desktop);
}
