use vstd::prelude::*;

use crate::event::UpdateEvent;

verus! {

/// What one update step asks of the scene stack: stay as it is, pop the
/// active scene, or push a new one that becomes active on the next event.
pub enum Action<S> {
    Continue,
    End,
    NewScene(S),
}

/// A swappable unit of screen behaviour over a shared global state `T`.
/// The driver depends only on this interface, never on a concrete scene.
pub trait Scene<T>: Sized {
    /// Well-formedness of the scene's own data. Constructors establish it
    /// and update steps preserve it, also for a scene they push.
    spec fn inv(&self) -> bool;

    /// The mathematical model of one update step: the scene after the
    /// step, the global state after it, and the requested action.
    spec fn step(self, global: T, event: UpdateEvent) -> (Self, T, Action<Self>);

    /// The scene's display name.
    fn title(&self) -> (t: String);

    /// One update step: reacts to an update-class event with exclusive
    /// access to the global state and directs the stack through the
    /// returned action — all exactly as `step` states it.
    fn update(&mut self, global: &mut T, event: UpdateEvent) -> (a: Action<Self>)
        requires
            old(self).inv(),
        ensures
            final(self).inv(),
            a matches Action::NewScene(s) ==> s.inv(),
            (*final(self), *final(global), a) == old(self).step(*old(global), event),
    ;
}

} // verus!
