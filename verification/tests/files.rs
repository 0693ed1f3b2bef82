use nine_grid_slicer::exporter::{output_path, ExportMode};
use nine_grid_slicer::loader::{
    admit_image, check_decoded, check_extension, finish_batch, join_lines, LoadError, SizeNotes,
};
use nine_grid_slicer::raster::Bitmap;

#[test]
fn test_invalid_extension() {
    let result = check_extension(&"test.jpg".to_string());
    assert!(result.is_err());
}

#[test]
fn extension_check_ignores_case() {
    assert_eq!(check_extension(&"a/b.png".to_string()), Ok(()));
    assert_eq!(check_extension(&"a/b.PNG".to_string()), Ok(()));
    assert_eq!(check_extension(&"a/b.Png".to_string()), Ok(()));
    assert_eq!(check_extension(&"a/b".to_string()), Err(LoadError::NoExtension));
    assert_eq!(check_extension(&"a/b.gif".to_string()), Err(LoadError::UnsupportedFormat));
}

#[test]
fn decoded_images_are_checked() {
    assert_eq!(check_decoded(2, 100, 100), Err(LoadError::BadColorFormat));
    assert_eq!(check_decoded(4, 0, 100), Err(LoadError::InvalidSize));
    assert_eq!(check_decoded(3, 100, 100), Ok(SizeNotes { too_large: false, too_small: false }));
    assert_eq!(check_decoded(4, 9000, 10), Ok(SizeNotes { too_large: true, too_small: true }));
    assert_eq!(LoadError::BadColorFormat.message(), "图片格式不正确");
    assert_eq!(LoadError::UnsupportedFormat.message(), "不支持的文件格式,请选择PNG图片");
}

#[test]
fn admitted_image_becomes_an_item() {
    let (item, notes) = admit_image("/x/y/z.png".to_string(), Bitmap::new(40, 40), 4).unwrap();
    assert_eq!(item.file_name, "z.png");
    assert_eq!((item.width, item.height), (40, 40));
    assert_eq!(notes, SizeNotes { too_large: false, too_small: false });
    assert!(admit_image("/x/y/z.png".to_string(), Bitmap::new(0, 40), 4).is_err());
}

#[test]
fn batch_outcomes() {
    let ok = finish_batch(vec![1, 2], vec![]).unwrap();
    assert_eq!(ok, (vec![1, 2], None));
    let partial = finish_batch(vec![1], vec!["a: bad".to_string(), "b: worse".to_string()]).unwrap();
    assert_eq!(partial.1.as_deref(), Some("部分图片加载失败:\na: bad\nb: worse"));
    let failed = finish_batch::<u32>(vec![], vec!["a: bad".to_string()]);
    assert_eq!(failed, Err("所有图片加载失败:\na: bad".to_string()));
    assert_eq!(join_lines(&vec![]), "");
}

#[test]
fn export_path_adds_suffix_before_extension() {
    let path = "/tmp/test_export.png".to_string();
    let out = output_path(&path, &ExportMode::WithSuffix("_cut".to_string()));
    assert_eq!(out, "/tmp/test_export_cut.png");
    assert_eq!(output_path(&path, &ExportMode::Overwrite), path);
    let plain = output_path(&"/tmp/notes".to_string(), &ExportMode::WithSuffix("_sliced".to_string()));
    assert_eq!(plain, "/tmp/notes_sliced");
    let bare = output_path(&"pic.png".to_string(), &ExportMode::WithSuffix("_s".to_string()));
    assert_eq!(bare, "pic_s.png");
}
