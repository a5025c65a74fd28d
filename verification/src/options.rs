use vstd::prelude::*;

use crate::event::UpdateEvent;
use crate::game::{Data, GameScene};
use crate::scene::Action;

verus! {

/// The options scene: a placeholder screen that only knows how to close
/// itself.
pub struct Options {}

impl Options {
    /// The scene's one decision: the back binding closes it, everything
    /// else leaves the stack alone.
    pub open spec fn spec_update(global: Data, event: UpdateEvent) -> Action<GameScene> {
        if event matches UpdateEvent::Key(k) && k == global.back {
            Action::End
        } else {
            Action::Continue
        }
    }

    /// The scene's display name.
    pub fn title(&self) -> (t: String)
        ensures
            t@ == "options"@,
    {
        String::from_str("options")
    }

    /// One update step: ends the scene on the back binding and otherwise
    /// continues; the scene and the global state are left untouched.
    pub fn update(&mut self, global: &mut Data, event: UpdateEvent) -> (a: Action<GameScene>)
        ensures
            *final(self) == *old(self),
            *final(global) == *old(global),
            a == Self::spec_update(*old(global), event),
    {
        match &event {
            UpdateEvent::Key(k) => {
                if *k == global.back {
                    Action::End
                } else {
                    Action::Continue
                }
            },
            _ => Action::Continue,
        }
    }
}

impl Default for Options {
    /// A fresh options scene.
    fn default() -> (s: Self)
        ensures
            s == (Options {  }),
    {
        Options {  }
    }
}

} // verus!
