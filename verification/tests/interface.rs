use constellation::bloom::{
    bloom_extent, down_dispatch_levels, down_pass_params, downsample_passes, grown_uniform_slots,
    mip_dispatch, up_dispatch_levels, upsample_passes, BloomSize, DownPassParams,
};
use constellation::camera::{surface_accepts_size, TargetSize};
use constellation::input::{
    accepts_text, key_action, pointer_button, ui_accepts_char, ui_mouse_button, KeyAction,
    MouseButton, PointerButton, UiKey, UiMouseButton, WindowKey, to_ui_key,
};
use constellation::star::{needs_uniform_rebuild, star_mesh_resolutions, StarResolution, UniformSlots};
use constellation::state::{
    dialog_open_after, AppState, BaseUi, Dimension, FileMenu, FileUi, HomeState, MainPanel,
    MenuBar, MiscUi, NewDialog, NewSimulationUi, Openable, StateManager,
};

#[test]
fn bloom_extent_rounds_to_workgroups() {
    assert_eq!(bloom_extent(1920, 1080), (964, 544));
    assert_eq!(bloom_extent(0, 1), (4, 4));
    assert_eq!(bloom_extent(16, 17), (12, 12));
    assert_eq!(bloom_extent(u32::MAX, 6), (2147483648, 4));
}

#[test]
fn bloom_resize_takes_full_mip_chain() {
    let mut s = BloomSize::new();
    assert!(s.needs_resize);
    assert!(!s.resize(0, 10));
    assert!(s.resize(964, 544));
    assert_eq!((s.width, s.height, s.levels, s.needs_resize), (964, 544, 10, false));
    assert!(!s.resize(964, 544));
    assert!(s.resize(4, 4));
    assert_eq!(s.levels, 3);
    assert!(s.resize(1, 1));
    assert_eq!(s.levels, 1);
}

#[test]
fn bloom_pass_counts() {
    assert_eq!(downsample_passes(1), 1);
    assert_eq!(downsample_passes(3), 1);
    assert_eq!(downsample_passes(10), 15);
    assert_eq!(upsample_passes(4), 1);
    assert_eq!(upsample_passes(10), 7);
    assert_eq!(grown_uniform_slots(0, 15), 1);
    assert_eq!(grown_uniform_slots(15, 15), 15);
}

#[test]
fn bloom_dispatch_schedule() {
    assert_eq!(down_dispatch_levels(2), vec![0]);
    assert_eq!(down_dispatch_levels(3), vec![0]);
    assert_eq!(down_dispatch_levels(5), vec![0, 1, 1, 2, 2]);
    assert_eq!(up_dispatch_levels(4), Vec::<u32>::new());
    assert_eq!(up_dispatch_levels(7), vec![3, 2, 1, 0]);
    let p = down_pass_params(5);
    assert_eq!(
        p,
        vec![
            DownPassParams { lod: 0, filter: 1 },
            DownPassParams { lod: 0, filter: 0 },
            DownPassParams { lod: 1, filter: 0 },
            DownPassParams { lod: 1, filter: 0 },
            DownPassParams { lod: 2, filter: 0 },
        ]
    );
}

#[test]
fn bloom_mip_dispatch_sizes() {
    assert_eq!(mip_dispatch(964, 544, 0), (241, 136));
    assert_eq!(mip_dispatch(964, 544, 1), (120, 68));
    assert_eq!(mip_dispatch(964, 544, 9), (0, 0));
    assert_eq!(mip_dispatch(16, 8, 3), (0, 0));
    assert_eq!(mip_dispatch(64, 8, 2), (4, 0));
}

#[test]
fn camera_target_resize() {
    let mut t = TargetSize::new(1, 1);
    assert!(!t.resize(1, 1));
    assert!(!t.resize(0, 5));
    assert_eq!((t.width(), t.height()), (1, 1));
    assert!(t.resize(800, 600));
    assert_eq!((t.width(), t.height()), (800, 600));
    assert!(surface_accepts_size(1, 1));
    assert!(!surface_accepts_size(0, 1));
}

#[test]
fn mouse_buttons() {
    assert_eq!(ui_mouse_button(MouseButton::Left), Some(UiMouseButton::Left));
    assert_eq!(ui_mouse_button(MouseButton::Other(1)), Some(UiMouseButton::Right));
    assert_eq!(ui_mouse_button(MouseButton::Other(3)), Some(UiMouseButton::Extra1));
    assert_eq!(ui_mouse_button(MouseButton::Other(4)), Some(UiMouseButton::Extra2));
    assert_eq!(ui_mouse_button(MouseButton::Other(5)), None);
    assert_eq!(pointer_button(MouseButton::Right), Some(PointerButton::Secondary));
    assert_eq!(pointer_button(MouseButton::Middle), Some(PointerButton::Middle));
    assert_eq!(pointer_button(MouseButton::Other(0)), None);
}

#[test]
fn typed_text() {
    assert!(ui_accepts_char('a'));
    assert!(!ui_accepts_char('\u{7f}'));
    assert!(accepts_text('a', false, false));
    assert!(!accepts_text('a', true, false));
    assert!(!accepts_text('a', false, true));
    assert!(!accepts_text('\t', false, false));
}

#[test]
fn keyboard_shortcuts() {
    assert_eq!(key_action(true, true, WindowKey::C), KeyAction::Copy);
    assert_eq!(key_action(true, true, WindowKey::X), KeyAction::Cut);
    assert_eq!(key_action(true, true, WindowKey::V), KeyAction::Ignore);
    assert_eq!(key_action(true, false, WindowKey::C), KeyAction::Ignore);
    assert_eq!(key_action(true, true, WindowKey::Other), KeyAction::Ignore);
    assert_eq!(key_action(false, true, WindowKey::C), KeyAction::Ignore);
    assert_eq!(key_action(false, false, WindowKey::A), KeyAction::Ignore);
    assert_eq!(key_action(true, false, WindowKey::A), KeyAction::Key(UiKey::A));
    assert_eq!(key_action(true, true, WindowKey::A), KeyAction::Key(UiKey::A));
    assert_eq!(key_action(true, false, WindowKey::Return), KeyAction::Key(UiKey::Enter));
}

#[test]
fn key_translation() {
    assert_eq!(to_ui_key(WindowKey::A), Some(UiKey::A));
    assert_eq!(to_ui_key(WindowKey::Return), Some(UiKey::Enter));
    assert_eq!(to_ui_key(WindowKey::Left), Some(UiKey::ArrowLeft));
    assert_eq!(to_ui_key(WindowKey::Back), Some(UiKey::Backspace));
    assert_eq!(to_ui_key(WindowKey::Escape), Some(UiKey::Escape));
    assert_eq!(to_ui_key(WindowKey::Z), Some(UiKey::Z));
    assert_eq!(to_ui_key(WindowKey::C), None);
    assert_eq!(to_ui_key(WindowKey::Other), None);
}

#[test]
fn star_resolutions() {
    let all = [
        StarResolution::Galaxy,
        StarResolution::Cluster,
        StarResolution::System5,
        StarResolution::System4,
        StarResolution::System3,
        StarResolution::System2,
        StarResolution::System1,
        StarResolution::System0,
        StarResolution::Orbit,
        StarResolution::Surface,
    ];
    for (i, r) in all.iter().enumerate() {
        assert_eq!(r.to_index(), i);
    }
    assert_eq!(star_mesh_resolutions(), vec![2, 12, 22, 32, 42, 52, 62, 72, 82, 92]);
}

#[test]
fn star_uniform_slots() {
    let s = UniformSlots::new(144, 256);
    assert_eq!(s.stride, 256);
    assert_eq!(s.buffer_size(3), 768);
    assert_eq!(s.offset(2), 512);
    let s = UniformSlots::new(256, 256);
    assert_eq!(s.stride, 256);
    assert!(needs_uniform_rebuild(0, 0, false));
    assert!(needs_uniform_rebuild(2, 3, true));
    assert!(!needs_uniform_rebuild(3, 3, true));
}

#[test]
fn state_manager_switches_to_last_enqueued() {
    let mut m = StateManager::new("home");
    assert_eq!(*m.state(), "home");
    assert!(!m.switch_to_pending());
    assert_eq!(*m.state(), "home");
    m.enqueue("a");
    m.enqueue("b");
    assert_eq!(*m.state(), "home");
    assert!(m.switch_to_pending());
    assert_eq!(*m.state(), "b");
    assert!(!m.switch_to_pending());
    assert_eq!(*m.state(), "b");
    *m.state_mut() = "c";
    assert_eq!(*m.state(), "c");
}

#[test]
fn openable_dialog() {
    let mut o: Openable<u8> = Openable::new();
    assert!(!o.is_open());
    o.open(1);
    assert!(o.is_open());
    o.close_after_show(true, false);
    assert!(o.is_open());
    o.close_after_show(true, true);
    assert!(!o.is_open());
    o.open(2);
    o.close_after_show(false, false);
    assert!(!o.is_open());
}

#[test]
fn menus_and_panels() {
    let home = HomeState::new();
    assert_eq!(home.title(), "Welcome");
    assert!(!FileMenu::new().is_dialog_open());
    assert!(MenuBar::new().file_menu_enabled());
    let _ = MainPanel::new();
    let misc = MiscUi::new();
    assert!(!misc.show_welcome && !misc.show_metrics && !misc.show_ui_demo);
    let d = NewDialog::new();
    assert_eq!(d.name, "Untitled");
    assert_eq!(d.name(), "New Document");
    let n = NewSimulationUi::new();
    assert_eq!(n.name, "Untitled");
    assert_eq!(n.dim, Dimension::One);
    assert_ne!(AppState::Run, AppState::Exit);
}

#[test]
fn file_ui_window_cycle() {
    let mut f = BaseUi::new().file;
    assert!(!f.is_menu_enabled());
    f.end_menu();
    assert!(f.is_menu_enabled());
    f.click_new();
    assert!(f.new_window_open());
    f.end_menu();
    assert!(!f.is_menu_enabled());
    f.close_if_dismissed(true);
    assert!(f.new_window_open());
    if let Some(w) = f.new_window_mut() {
        w.name.push_str(" 2");
    }
    f.close_if_dismissed(false);
    assert!(!f.new_window_open());
    f.end_menu();
    assert!(f.is_menu_enabled());
    let _ = FileUi::new();
}

#[test]
fn dialog_window_stays_open() {
    assert!(dialog_open_after(true, None));
    assert!(dialog_open_after(true, Some(None)));
    assert!(dialog_open_after(true, Some(Some(true))));
    assert!(!dialog_open_after(true, Some(Some(false))));
    assert!(!dialog_open_after(false, Some(Some(true))));
}
