use nine_grid_slicer::item::{shift_cut, ImageItem};
use nine_grid_slicer::raster::Bitmap;
use nine_grid_slicer::state::{AppState, ExportMessage};

/// Proportional rescaling in `f32`, as the application does it.
fn proportion(value: u32, num: u32, den: u32) -> u32 {
    (value as f32 * (num as f32 / den as f32)) as u32
}

fn item(width: u32, height: u32) -> ImageItem {
    ImageItem::new("/in/a.png".to_string(), Bitmap::new(width, height))
}

#[test]
fn first_image_is_selected() {
    let mut s: AppState<u32> = AppState::new();
    assert_eq!(s.selected_index, None);
    s.add_image(10);
    assert_eq!(s.selected_index, Some(0));
    s.add_image(11);
    assert_eq!(s.selected_index, Some(0));
    assert!(s.has_images());
}

#[test]
fn add_images_appends_in_order() {
    let mut s: AppState<u32> = AppState::default();
    s.add_images(vec![1, 2, 3]);
    assert_eq!(s.images, vec![1, 2, 3]);
    assert_eq!(s.selected_index, Some(0));
    s.select_image(2);
    s.add_images(vec![4]);
    assert_eq!(s.images, vec![1, 2, 3, 4]);
    assert_eq!(s.selected_index, Some(2));
}

#[test]
fn select_past_the_end_is_ignored() {
    let mut s: AppState<u32> = AppState::new();
    s.add_images(vec![1, 2]);
    s.select_image(1);
    s.select_image(5);
    assert_eq!(s.selected_index, Some(1));
    assert_eq!(s.get_selected_image(), Some(&2));
}

#[test]
fn removing_another_image_keeps_the_selection() {
    let mut s: AppState<u32> = AppState::new();
    s.add_images(vec![1, 2, 3, 4]);
    s.select_image(2);
    s.remove_image(0);
    assert_eq!(s.images, vec![2, 3, 4]);
    assert_eq!(s.get_selected_image(), Some(&3));
    s.remove_image(2);
    assert_eq!(s.get_selected_image(), Some(&3));
}

#[test]
fn removing_the_selected_image_moves_back() {
    let mut s: AppState<u32> = AppState::new();
    s.add_images(vec![1, 2, 3]);
    s.select_image(1);
    s.remove_image(1);
    assert_eq!(s.selected_index, Some(0));
    s.remove_image(0);
    assert_eq!(s.selected_index, Some(0));
    assert_eq!(s.images, vec![3]);
    s.remove_image(0);
    assert_eq!(s.selected_index, None);
    s.remove_image(0);
    assert!(!s.has_images());
}

#[test]
fn clearing_drops_the_selection() {
    let mut s: AppState<u32> = AppState::new();
    s.add_images(vec![1, 2]);
    s.clear_images();
    assert_eq!(s.selected_index, None);
    assert_eq!(s.get_selected_image(), None);
}

#[test]
fn selected_image_can_be_changed_in_place() {
    let mut s: AppState<u32> = AppState::new();
    s.add_images(vec![1, 2]);
    s.select_image(1);
    if let Some(x) = s.get_selected_image_mut() {
        *x = 20;
    }
    assert_eq!(s.images, vec![1, 20]);
}

#[test]
fn errors_are_set_and_cleared() {
    let mut s: AppState<u32> = AppState::new();
    s.set_error("boom".to_string());
    assert_eq!(s.error_message.as_deref(), Some("boom"));
    s.clear_error();
    assert_eq!(s.error_message, None);
}

#[test]
fn overwrite_needs_images() {
    let mut s: AppState<u32> = AppState::new();
    s.request_overwrite();
    assert!(!s.show_overwrite_confirmation);
    s.add_image(1);
    s.request_overwrite();
    assert!(s.show_overwrite_confirmation);
}

#[test]
fn export_progress_and_finish() {
    let mut s: AppState<u32> = AppState::new();
    s.set_error("old".to_string());
    s.begin_export();
    assert!(s.is_exporting);
    assert_eq!(s.export_message, "准备导出...");
    assert_eq!(s.error_message, None);
    let ended = s.apply_export_messages(vec![ExportMessage::Progress(1, 2, "正在导出 1/2".to_string())]);
    assert!(!ended);
    assert!(s.is_exporting);
    assert_eq!(s.export_message, "正在导出 1/2");
    let ended = s.apply_export_messages(vec![
        ExportMessage::Progress(2, 2, "正在导出 2/2".to_string()),
        ExportMessage::Finished,
    ]);
    assert!(ended);
    assert!(!s.is_exporting);
    assert_eq!(s.export_message, "导出完成!");
    assert_eq!(s.error_message, None);
}

#[test]
fn export_failure_is_reported() {
    let mut s: AppState<u32> = AppState::new();
    s.begin_export();
    let ended = s.apply_export_messages(vec![
        ExportMessage::Error("first".to_string()),
        ExportMessage::Progress(1, 1, "正在导出 1/1".to_string()),
        ExportMessage::Error("disk full".to_string()),
    ]);
    assert!(ended);
    assert!(!s.is_exporting);
    assert_eq!(s.export_message, "正在导出 1/1");
    assert_eq!(s.error_message.as_deref(), Some("导出失败: disk full"));
    let ended = s.apply_export_messages(vec![]);
    assert!(!ended);
}

#[test]
fn new_item_has_no_cuts() {
    let it = ImageItem::new("/pictures/holiday/beach.png".to_string(), Bitmap::new(30, 20));
    assert_eq!(it.file_name, "beach.png");
    assert_eq!((it.width, it.height), (30, 20));
    assert_eq!((it.top, it.bottom, it.left, it.right), (0, 0, 0, 0));
    assert!(it.preview_image.is_none());
}

#[test]
fn validate_limits_cuts_to_the_image() {
    let mut it = item(100, 50);
    it.top = 70;
    it.bottom = 10;
    it.left = 20;
    it.right = 30;
    it.validate_params(proportion);
    // top is first limited to 50; 50 + 10 > 50, so both shrink by 50/60
    assert_eq!((it.top, it.bottom), (41, 8));
    assert_eq!((it.left, it.right), (20, 30));
    assert!(it.top + it.bottom <= it.height);

    let mut it = item(100, 50);
    it.top = 500;
    it.validate_params(proportion);
    assert_eq!(it.top, 50);
}

#[test]
fn copy_scales_and_limits_to_half() {
    let mut small = item(50, 40);
    let mut big = item(100, 80);
    big.top = 30;
    big.bottom = 60;
    big.left = 10;
    big.right = 90;
    small.copy_params_from(&big, proportion);
    assert_eq!((small.top, small.bottom), (15, 20));
    assert_eq!((small.left, small.right), (5, 25));
}

#[test]
fn cut_size_follows_the_zero_rule() {
    let mut it = item(100, 50);
    assert_eq!(it.cut_size(), (100, 50));
    it.left = 10;
    it.right = 20;
    assert_eq!(it.cut_size(), (30, 50));
    it.bottom = 5;
    assert_eq!(it.cut_size(), (30, 5));
}

#[test]
fn shifting_a_cut_stops_at_zero() {
    assert_eq!(shift_cut(10, 5), 15);
    assert_eq!(shift_cut(10, -4), 6);
    assert_eq!(shift_cut(3, -7), 0);
    // values above i32::MAX are read as the wrapped i32
    assert_eq!(shift_cut(0xFFFF_FFF0, 20), 4);
    assert_eq!(shift_cut(3_000_000_000, 5), 0);
}
