use engine::event::{
    classify_input, quit_key, Event, KeyCode, KeyPhase, KeyPress, MouseInput, RawInput,
    RenderEvent, UpdateEvent,
};

fn plain(code: KeyCode) -> KeyPress {
    KeyPress { code, ctrl: false, alt: false, shift: false }
}

#[test]
fn quit_key_is_control_c() {
    assert_eq!(
        quit_key(),
        KeyPress { code: KeyCode::Char('c'), ctrl: true, alt: false, shift: false }
    );
}

#[test]
fn key_press_becomes_update_event() {
    let k = plain(KeyCode::Enter);
    assert_eq!(
        classify_input(RawInput::Key(k, KeyPhase::Press)),
        Some(Event::UpdateEvent(UpdateEvent::Key(k)))
    );
}

#[test]
fn key_repeat_and_release_are_suppressed() {
    let k = plain(KeyCode::Char('a'));
    assert_eq!(classify_input(RawInput::Key(k, KeyPhase::Repeat)), None);
    assert_eq!(classify_input(RawInput::Key(k, KeyPhase::Release)), None);
}

#[test]
fn mouse_becomes_update_event() {
    let m = MouseInput { column: 3, row: 7 };
    assert_eq!(
        classify_input(RawInput::Mouse(m)),
        Some(Event::UpdateEvent(UpdateEvent::Mouse(m)))
    );
}

#[test]
fn resize_is_render_class() {
    assert_eq!(
        classify_input(RawInput::Resize(120, 30)),
        Some(Event::RenderEvent(RenderEvent::Resize(120, 30)))
    );
}

#[test]
fn paste_becomes_update_event() {
    assert_eq!(
        classify_input(RawInput::Paste(String::from("hello"))),
        Some(Event::UpdateEvent(UpdateEvent::Paste(String::from("hello"))))
    );
}

#[test]
fn focus_changes_are_dropped() {
    assert_eq!(classify_input(RawInput::FocusGained), None);
    assert_eq!(classify_input(RawInput::FocusLost), None);
}

#[test]
fn read_failure_becomes_error_event() {
    assert_eq!(classify_input(RawInput::ReadFailure), Some(Event::Error));
}
