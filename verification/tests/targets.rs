use constellation::camera::CameraTarget;
use constellation::render::ImageRegistry;
use constellation::state::FileUi;
use constellation::ui_frame::concat_sub_buffers;

#[test]
fn camera_target_replaces_its_image() {
    let mut registry: ImageRegistry<&str> = ImageRegistry::new();
    let mut target = CameraTarget::new(&mut registry, 1, 1, "first");
    let first = target.image;
    assert_eq!(first.into_raw(), 0);
    assert!(!target.resize(1, 1));
    assert!(!target.resize(0, 3));
    assert_eq!(target.image, first);
    assert!(target.resize(640, 480));
    target.replace_image(&mut registry, "second");
    assert_eq!((target.size.width, target.size.height), (640, 480));
    assert_eq!(target.image.into_raw(), 1);
    assert_eq!(registry.get(first), None);
    assert_eq!(registry.get(target.image), Some(&"second"));
}

#[test]
fn sub_buffers_concatenate_in_order() {
    let buffers: Vec<Vec<u16>> = vec![vec![1, 2, 3], vec![], vec![4], vec![5, 6]];
    assert_eq!(concat_sub_buffers(&buffers), vec![1, 2, 3, 4, 5, 6]);
    let empty: Vec<Vec<u16>> = Vec::new();
    assert!(concat_sub_buffers(&empty).is_empty());
}

#[test]
fn new_window_keeps_typed_name() {
    let mut f = FileUi::new();
    f.click_new();
    if let Some(w) = f.new_window_mut() {
        assert_eq!(w.name, "Untitled");
        w.name.push_str(" run");
    }
    if let Some(w) = f.new_window_mut() {
        assert_eq!(w.name, "Untitled run");
    }
    f.click_new();
    if let Some(w) = f.new_window_mut() {
        assert_eq!(w.name, "Untitled");
    }
}
