use glwindow::command::WindowCommand;
use glwindow::event::{Action, WindowEvent, KEY_ESCAPE};
use glwindow::window::Window;

fn key(key: i32, action: Action) -> WindowEvent {
    WindowEvent::Key { key, scancode: 9, action, modifiers: 0 }
}

#[test]
fn new_window_keeps_its_arguments_and_is_open() {
    let w = Window::new(300, 300, "Misery");
    assert_eq!(w.width(), 300);
    assert_eq!(w.height(), 300);
    assert_eq!(w.title(), "Misery");
    assert!(!w.should_close());
}

#[test]
fn new_window_with_empty_title_and_zero_size() {
    let w = Window::new(0, u32::MAX, "");
    assert_eq!(w.width(), 0);
    assert_eq!(w.height(), u32::MAX);
    assert_eq!(w.title(), "");
    assert!(!w.should_close());
}

#[test]
fn gl_init_makes_current_then_polls_keys_then_loads() {
    let mut w = Window::new(640, 480, "t");
    let cmds = w.gl_init();
    assert_eq!(
        cmds,
        vec![WindowCommand::MakeCurrent, WindowCommand::SetKeyPolling(true), WindowCommand::LoadGl]
    );
    assert_eq!(w.width(), 640);
    assert_eq!(w.height(), 480);
    assert_eq!(w.title(), "t");
    assert!(!w.should_close());
}

#[test]
fn update_without_events_swaps_then_polls() {
    let mut w = Window::new(1, 1, "t");
    let cmds = w.update(&[]);
    assert_eq!(cmds, vec![WindowCommand::SwapBuffers, WindowCommand::PollEvents]);
    assert!(!w.should_close());
}

#[test]
fn update_on_escape_press_closes_first() {
    let mut w = Window::new(1, 1, "t");
    let cmds = w.update(&[key(KEY_ESCAPE, Action::Press)]);
    assert_eq!(
        cmds,
        vec![
            WindowCommand::SetShouldClose(true),
            WindowCommand::SwapBuffers,
            WindowCommand::PollEvents
        ]
    );
    assert!(w.should_close());
}

#[test]
fn update_keeps_size_and_title() {
    let mut w = Window::new(300, 200, "Misery");
    w.update(&[key(KEY_ESCAPE, Action::Press), WindowEvent::Other]);
    assert_eq!(w.width(), 300);
    assert_eq!(w.height(), 200);
    assert_eq!(w.title(), "Misery");
}

#[test]
fn escape_release_and_repeat_do_not_close() {
    let mut w = Window::new(1, 1, "t");
    let cmds = w.process_events(&[key(KEY_ESCAPE, Action::Release), key(KEY_ESCAPE, Action::Repeat)]);
    assert_eq!(cmds, vec![]);
    assert!(!w.should_close());
}

#[test]
fn other_keys_do_not_close() {
    let mut w = Window::new(1, 1, "t");
    let cmds = w.process_events(&[
        key(255, Action::Press),
        key(257, Action::Press),
        key(0, Action::Press),
        key(-1, Action::Press),
        key(32, Action::Press),
    ]);
    assert_eq!(cmds, vec![]);
    assert!(!w.should_close());
}

#[test]
fn events_that_are_not_keys_do_not_close() {
    let mut w = Window::new(1, 1, "t");
    let cmds = w.process_events(&[WindowEvent::Other, WindowEvent::Other]);
    assert_eq!(cmds, vec![]);
    assert!(!w.should_close());
}

#[test]
fn every_escape_press_yields_one_command() {
    let mut w = Window::new(1, 1, "t");
    let cmds = w.process_events(&[
        WindowEvent::Other,
        key(KEY_ESCAPE, Action::Press),
        key(65, Action::Press),
        key(KEY_ESCAPE, Action::Release),
        key(KEY_ESCAPE, Action::Press),
        key(KEY_ESCAPE, Action::Press),
    ]);
    assert_eq!(cmds, vec![WindowCommand::SetShouldClose(true); 3]);
    assert!(w.should_close());
}

#[test]
fn scancode_and_modifiers_are_ignored() {
    let mut w = Window::new(1, 1, "t");
    let e = WindowEvent::Key { key: KEY_ESCAPE, scancode: -7, action: Action::Press, modifiers: 0x3f };
    let cmds = w.process_events(&[e]);
    assert_eq!(cmds, vec![WindowCommand::SetShouldClose(true)]);
    assert!(w.should_close());
}

#[test]
fn close_flag_stays_set() {
    let mut w = Window::new(1, 1, "t");
    w.update(&[key(KEY_ESCAPE, Action::Press)]);
    assert!(w.should_close());
    let cmds = w.update(&[key(KEY_ESCAPE, Action::Release), WindowEvent::Other]);
    assert_eq!(cmds, vec![WindowCommand::SwapBuffers, WindowCommand::PollEvents]);
    assert!(w.should_close());
    let cmds = w.gl_init();
    assert_eq!(cmds.len(), 3);
    assert!(w.should_close());
}

#[test]
fn process_events_on_empty_batch_does_nothing() {
    let mut w = Window::new(1, 1, "t");
    let cmds = w.process_events(&[]);
    assert_eq!(cmds, vec![]);
    assert!(!w.should_close());
}

#[test]
fn two_batches_equal_one_batch() {
    let first = [key(KEY_ESCAPE, Action::Press), WindowEvent::Other];
    let second = [key(65, Action::Press), key(KEY_ESCAPE, Action::Press)];
    let whole = [first[0], first[1], second[0], second[1]];

    let mut split = Window::new(1, 1, "t");
    let mut cmds = split.process_events(&first);
    cmds.extend(split.process_events(&second));

    let mut joined = Window::new(1, 1, "t");
    assert_eq!(joined.process_events(&whole), cmds);
    assert_eq!(cmds, vec![WindowCommand::SetShouldClose(true); 2]);
    assert_eq!(joined.should_close(), split.should_close());
    assert!(split.should_close());
}
