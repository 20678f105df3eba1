use cursor_sync::screen::ScreenUtil;

#[test]
fn scales_between_screen_sizes() {
    assert_eq!(ScreenUtil::scale_coordinates(960, 540, 1920, 1080, 1280, 720), (640, 360));
    assert_eq!(ScreenUtil::scale_coordinates(1, 1, 3, 3, 2, 2), (0, 0));
    assert_eq!(ScreenUtil::scale_coordinates(100, 50, 100, 50, 100, 50), (100, 50));
}

#[test]
fn scaling_rounds_toward_zero() {
    assert_eq!(ScreenUtil::scale_coordinates(-7, 7, 2, 2, 1, 1), (-3, 3));
    assert_eq!(ScreenUtil::scale_coordinates(7, -7, -2, 2, 1, 1), (-3, -3));
    assert_eq!(ScreenUtil::scale_coordinates(-7, -5, -2, -2, 1, 1), (3, 2));
}
