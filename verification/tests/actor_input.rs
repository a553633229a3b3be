use sprite_engine::actor::Actor;
use sprite_engine::input::{
    handle_window_event, handle_window_events, InputEvent, KeyAction, WindowCommand, KEY_ESCAPE,
};
use sprite_engine::shader_log::info_log_len;

#[test]
fn create_actor_returns_consecutive_ids() {
    let mut a: Actor<(f32, f32), f32, u32> = Actor::new();
    assert_eq!(a.create_actor((0.0, 0.0), 0.0, 7), 0);
    assert_eq!(a.create_actor((-1.0, 0.0), 0.5, 8), 1);
    assert_eq!(a.create_actor((1.0, 0.0), 1.0, 9), 2);
    assert_eq!(a.positions, vec![(0.0, 0.0), (-1.0, 0.0), (1.0, 0.0)]);
    assert_eq!(a.angles, vec![0.0, 0.5, 1.0]);
    assert_eq!(a.sprites, vec![7, 8, 9]);
}

#[test]
fn escape_press_closes_window() {
    let e = InputEvent::Key { key: KEY_ESCAPE, scancode: 9, action: KeyAction::Press, mods: 0 };
    assert_eq!(handle_window_event(&e), WindowCommand::Close);
}

#[test]
fn other_events_keep_window() {
    let release = InputEvent::Key { key: KEY_ESCAPE, scancode: 9, action: KeyAction::Release, mods: 0 };
    let repeat = InputEvent::Key { key: KEY_ESCAPE, scancode: 9, action: KeyAction::Repeat, mods: 0 };
    let space = InputEvent::Key { key: 32, scancode: 65, action: KeyAction::Press, mods: 0 };
    assert_eq!(handle_window_event(&release), WindowCommand::Keep);
    assert_eq!(handle_window_event(&repeat), WindowCommand::Keep);
    assert_eq!(handle_window_event(&space), WindowCommand::Keep);
    assert_eq!(handle_window_event(&InputEvent::Other), WindowCommand::Keep);
}

#[test]
fn frame_events_close_when_any_does() {
    let esc = InputEvent::Key { key: KEY_ESCAPE, scancode: 9, action: KeyAction::Press, mods: 0 };
    let space = InputEvent::Key { key: 32, scancode: 65, action: KeyAction::Press, mods: 0 };
    assert_eq!(handle_window_events(&[]), WindowCommand::Keep);
    assert_eq!(handle_window_events(&[space, InputEvent::Other]), WindowCommand::Keep);
    assert_eq!(handle_window_events(&[space, esc, InputEvent::Other]), WindowCommand::Close);
    assert_eq!(handle_window_events(&[esc]), WindowCommand::Close);
}

#[test]
fn info_log_drops_trailing_nul() {
    assert_eq!(info_log_len(1), 0);
    assert_eq!(info_log_len(57), 56);
}
