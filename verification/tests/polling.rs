use constellation::camera::screen_resize_applies;
use constellation::input::{
    to_window_cursor, CursorCache, CursorCommand, CursorSettings, UiCursor, WindowCursor,
};
use constellation::state::{on_progress_message, PollStep, ProgressMessage};

#[test]
fn progress_polling() {
    let mut progress = 0.0f64;
    assert_eq!(on_progress_message(&mut progress, ProgressMessage::Progress(0.25)), PollStep::Continue);
    assert_eq!(progress, 0.25);
    assert_eq!(on_progress_message(&mut progress, ProgressMessage::Progress(0.5)), PollStep::Continue);
    assert_eq!(on_progress_message(&mut progress, ProgressMessage::Empty), PollStep::Running);
    assert_eq!(progress, 0.5);
    assert_eq!(on_progress_message(&mut progress, ProgressMessage::Disconnected), PollStep::Finished);
    assert_eq!(progress, 0.5);
}

#[test]
fn cursor_icons() {
    assert_eq!(to_window_cursor(UiCursor::Arrow), WindowCursor::Default);
    assert_eq!(to_window_cursor(UiCursor::ResizeAll), WindowCursor::Move);
    assert_eq!(to_window_cursor(UiCursor::ResizeNESW), WindowCursor::NeswResize);
    let show = CursorSettings { cursor: Some(UiCursor::Hand), draw_cursor: false };
    assert_eq!(show.command(), CursorCommand::Show(WindowCursor::Hand));
    let drawn = CursorSettings { cursor: Some(UiCursor::Hand), draw_cursor: true };
    assert_eq!(drawn.command(), CursorCommand::Hide);
    let none = CursorSettings { cursor: None, draw_cursor: false };
    assert_eq!(none.command(), CursorCommand::Hide);
}

#[test]
fn cursor_cache_applies_changes_only() {
    let mut cache = CursorCache::new();
    let text = CursorSettings { cursor: Some(UiCursor::TextInput), draw_cursor: false };
    assert_eq!(cache.update(text), Some(CursorCommand::Show(WindowCursor::Text)));
    assert_eq!(cache.update(text), None);
    let hidden = CursorSettings { cursor: None, draw_cursor: false };
    assert_eq!(cache.update(hidden), Some(CursorCommand::Hide));
    assert_eq!(cache.update(text), Some(CursorCommand::Show(WindowCursor::Text)));
}

#[test]
fn minimized_window_keeps_screen() {
    assert!(!screen_resize_applies(0, 0));
    assert!(screen_resize_applies(0, 10));
    assert!(screen_resize_applies(800, 600));
}
