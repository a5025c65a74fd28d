use vstd::prelude::*;

verus! {

/// The code of a pressed key. Keys the runtime has no use for are folded
/// into `Other`.
#[derive(Clone, Copy, PartialEq, Eq, Structural, Debug)]
pub enum KeyCode {
    Char(char),
    Up,
    Down,
    Left,
    Right,
    Enter,
    Esc,
    Backspace,
    Tab,
    Other,
}

/// A key press: the key's code plus the modifier switches held with it.
#[derive(Clone, Copy, PartialEq, Eq, Structural, Debug)]
pub struct KeyPress {
    pub code: KeyCode,
    pub ctrl: bool,
    pub alt: bool,
    pub shift: bool,
}

/// Which phase of a key's travel a notification reports.
#[derive(Clone, Copy, PartialEq, Eq, Structural, Debug)]
pub enum KeyPhase {
    Press,
    Repeat,
    Release,
}

/// A mouse notification, reduced to the cell it points at.
#[derive(Clone, Copy, PartialEq, Eq, Structural, Debug)]
pub struct MouseInput {
    pub column: u16,
    pub row: u16,
}

/// Render-class events: a redraw pulse, or a resize that invalidates layout.
#[derive(Clone, Copy, PartialEq, Eq, Structural, Debug)]
pub enum RenderEvent {
    Render,
    Resize(u16, u16),
}

/// Update-class events: a timed pulse, or one unit of user input.
#[derive(Clone, PartialEq, Eq, Debug)]
pub enum UpdateEvent {
    Tick,
    Key(KeyPress),
    Mouse(MouseInput),
    Paste(String),
}

/// Everything the driver can consume: an input-subsystem failure, a
/// render-class event, or an update-class event. The classes are disjoint.
#[derive(Clone, PartialEq, Eq, Debug)]
pub enum Event {
    Error,
    RenderEvent(RenderEvent),
    UpdateEvent(UpdateEvent),
}

/// One notification from the raw input stream, before classification:
/// a key in some phase, a mouse or resize or paste notification, a focus
/// change, or a failed read.
#[derive(Clone, PartialEq, Eq, Debug)]
pub enum RawInput {
    Key(KeyPress, KeyPhase),
    Mouse(MouseInput),
    Resize(u16, u16),
    Paste(String),
    FocusGained,
    FocusLost,
    ReadFailure,
}

/// The reserved quit combination: Control together with the character 'c'.
/// It ends the application whatever scene is active and is not remappable.
pub open spec fn spec_quit_key() -> KeyPress {
    KeyPress { code: KeyCode::Char('c'), ctrl: true, alt: false, shift: false }
}

/// The reserved quit combination as a value.
pub fn quit_key() -> (k: KeyPress)
    ensures
        k == spec_quit_key(),
{
    KeyPress { code: KeyCode::Char('c'), ctrl: true, alt: false, shift: false }
}

/// Whether an update-class event is the quit combination.
pub open spec fn is_quit(event: UpdateEvent) -> bool {
    event matches UpdateEvent::Key(k) && k == spec_quit_key()
}

/// Decides whether `event` carries the quit combination.
pub fn is_quit_event(event: &UpdateEvent) -> (b: bool)
    ensures
        b == is_quit(*event),
{
    match event {
        UpdateEvent::Key(k) => *k == quit_key(),
        _ => false,
    }
}

/// What one raw notification becomes on the event stream, if anything:
/// key presses pass through in their press phase only, mouse, resize and
/// paste notifications pass through, focus changes are dropped, and a
/// failed read becomes `Event::Error`.
pub open spec fn spec_classify(input: RawInput) -> Option<Event> {
    match input {
        RawInput::Key(k, phase) => if phase is Press {
            Some(Event::UpdateEvent(UpdateEvent::Key(k)))
        } else {
            None
        },
        RawInput::Mouse(m) => Some(Event::UpdateEvent(UpdateEvent::Mouse(m))),
        RawInput::Resize(w, h) => Some(Event::RenderEvent(RenderEvent::Resize(w, h))),
        RawInput::Paste(s) => Some(Event::UpdateEvent(UpdateEvent::Paste(s))),
        RawInput::FocusGained => None,
        RawInput::FocusLost => None,
        RawInput::ReadFailure => Some(Event::Error),
    }
}

/// Turns one raw notification from the input stream into the event the
/// driver consumes, or nothing when the notification is suppressed.
pub fn classify_input(input: RawInput) -> (r: Option<Event>)
    ensures
        r == spec_classify(input),
{
    match input {
        RawInput::Key(k, phase) => {
            if phase == KeyPhase::Press {
                Some(Event::UpdateEvent(UpdateEvent::Key(k)))
            } else {
                None
            }
        },
        RawInput::Mouse(m) => Some(Event::UpdateEvent(UpdateEvent::Mouse(m))),
        RawInput::Resize(w, h) => Some(Event::RenderEvent(RenderEvent::Resize(w, h))),
        RawInput::Paste(s) => Some(Event::UpdateEvent(UpdateEvent::Paste(s))),
        RawInput::FocusGained => None,
        RawInput::FocusLost => None,
        RawInput::ReadFailure => Some(Event::Error),
    }
}

} // verus!
