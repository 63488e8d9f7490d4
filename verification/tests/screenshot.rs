use koompi_shell::screenshot::{
    decimal_bytes, encode_ppm, RegionSelection, ScreenshotAction, ScreenshotManager,
};

#[test]
fn test_region_selection() {
    let mut region = RegionSelection::default();
    region.start_selection(10, 20);
    region.update(100, 150);

    let rect = region.finish();
    assert!(rect.is_some());

    let (x, y, w, h) = rect.unwrap();
    assert_eq!(x, 10);
    assert_eq!(y, 20);
    assert_eq!(w, 90);
    assert_eq!(h, 130);
}

#[test]
fn test_region_cancel() {
    let mut region = RegionSelection::default();
    region.start_selection(0, 0);
    region.cancel();

    assert!(!region.active);
    assert!(region.start.is_none());
}

#[test]
fn finish_without_update_yields_none() {
    let mut region = RegionSelection::default();
    region.start_selection(10, 20);
    assert_eq!(region.finish(), None);
}

#[test]
fn finish_normalizes_reversed_corners() {
    let mut region = RegionSelection::default();
    region.start_selection(100, 150);
    region.update(10, 20);
    assert_eq!(region.finish(), Some((10, 20, 90, 130)));
}

#[test]
fn zero_area_selection_is_discarded() {
    let mut region = RegionSelection::default();
    region.start_selection(10, 20);
    region.update(10, 150);
    assert_eq!(region.finish(), None);
}

#[test]
fn get_rect_orders_the_corners() {
    let mut region = RegionSelection::default();
    region.start_selection(50, 5);
    region.update(7, 40);
    assert_eq!(region.get_rect(), Some((7, 5, 50, 40)));
}

#[test]
fn capture_action_shift_takes_precedence() {
    assert_eq!(
        ScreenshotAction::from_modifiers(true, true),
        ScreenshotAction::SelectRegion
    );
    assert_eq!(
        ScreenshotAction::from_modifiers(false, true),
        ScreenshotAction::ActiveWindow
    );
    assert_eq!(
        ScreenshotAction::from_modifiers(false, false),
        ScreenshotAction::FullScreen
    );
}

#[test]
fn capture_framebuffer_copies_the_pixels() {
    let manager = ScreenshotManager::new();
    let data = [1u8, 2, 3, 4, 5, 6, 7, 8];
    let shot = manager.capture_framebuffer(&data, 2, 1);
    assert_eq!(shot.data, data.to_vec());
    assert_eq!(shot.width, 2);
    assert_eq!(shot.height, 1);
    assert_eq!(shot.path, None);
}

#[test]
fn capture_region_extracts_and_clamps() {
    let manager = ScreenshotManager::new();
    // a 2 by 2 RGBA image: pixels 0, 1, 2, 3 in row-major order
    let full: Vec<u8> = (0..16).collect();
    let shot = manager.capture_region(&full, 2, 2, 1, 0, 2, 1);
    // columns 1 and 2 of row 0; column 2 clamps to the last column
    assert_eq!(shot.data, vec![4, 5, 6, 7, 4, 5, 6, 7]);
    assert_eq!(shot.width, 2);
    assert_eq!(shot.height, 1);
}

#[test]
fn decimal_bytes_render_exactly() {
    assert_eq!(decimal_bytes(0), b"0".to_vec());
    assert_eq!(decimal_bytes(7), b"7".to_vec());
    assert_eq!(decimal_bytes(1280), b"1280".to_vec());
    assert_eq!(decimal_bytes(4294967295), b"4294967295".to_vec());
}

#[test]
fn ppm_encoding_drops_alpha() {
    let data: Vec<u8> = vec![10, 20, 30, 255, 40, 50, 60, 255];
    let ppm = encode_ppm(2, 1, &data);
    let mut expected = b"P6\n2 1\n255\n".to_vec();
    expected.extend_from_slice(&[10, 20, 30, 40, 50, 60]);
    assert_eq!(ppm, expected);
}

#[test]
fn generate_filename_renders_the_pattern() {
    let manager = ScreenshotManager::new();
    let name = manager.generate_filename();
    let dir_prefix = format!("{}/", manager.save_directory);
    assert!(name.starts_with(&dir_prefix));
    assert!(name.ends_with(".png"));
    assert!(!name.contains('%'));
    assert!(name.contains("screenshot_"));
}

#[test]
fn manager_defaults() {
    let manager = ScreenshotManager::new();
    assert!(manager.save_directory.ends_with("/Screenshots"));
    assert_eq!(manager.filename_format, "screenshot_%Y%m%d_%H%M%S.png");
    assert!(manager.copy_to_clipboard);
    assert!(manager.save_to_file);
    assert!(manager.show_notification);
    assert!(!manager.region_selection.active);
}
