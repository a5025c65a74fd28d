use vstd::prelude::*;

use crate::event::UpdateEvent;
use crate::game::{Data, GameScene};
use crate::options::Options;
use crate::scene::Action;

verus! {

/// Index of the entry in the title menu that opens the options scene.
pub const OPTIONS_ENTRY: usize = 2;

/// The title menu: a fixed list of three entries and the index of the
/// highlighted one.
pub struct TitleScreen {
    /// The index of the highlighted entry.
    pub selected: usize,
    /// The menu entries, top to bottom.
    pub list: Vec<String>,
}

impl TitleScreen {
    /// Three fixed entries, the highlight on one of them, the options
    /// entry in its reserved place.
    pub open spec fn inv(self) -> bool {
        &&& self.list@.len() == 3
        &&& self.selected < 3
        &&& self.list@[0]@ == "Continue"@
        &&& self.list@[1]@ == "New Game"@
        &&& self.list@[2]@ == "Options"@
    }

    /// The menu's one update step: the up and down bindings move the
    /// highlight with wrap-around (checked in that order against the
    /// bindings the global state holds), and the forward binding, when the
    /// highlight then rests on the options entry, opens the options scene.
    pub open spec fn spec_update(self, global: Data, event: UpdateEvent) -> (TitleScreen, Action<
        GameScene,
    >) {
        match event {
            UpdateEvent::Key(k) => {
                let after_up: usize = if k == global.up {
                    if self.selected == 0 {
                        (self.list@.len() - 1) as usize
                    } else {
                        (self.selected - 1) as usize
                    }
                } else {
                    self.selected
                };
                let after_down: usize = if k == global.down {
                    if after_up == self.list@.len() - 1 {
                        0usize
                    } else {
                        (after_up + 1) as usize
                    }
                } else {
                    after_up
                };
                let moved = TitleScreen { selected: after_down, list: self.list };
                if k == global.forward && after_down == OPTIONS_ENTRY {
                    (moved, Action::NewScene(GameScene::Options(Options {  })))
                } else {
                    (moved, Action::Continue)
                }
            },
            _ => (self, Action::Continue),
        }
    }

    /// The scene's display name.
    pub fn title(&self) -> (t: String)
        ensures
            t@ == "Title Screen"@,
    {
        String::from_str("Title Screen")
    }

    /// One update step, exactly as `spec_update` states it; the global
    /// state is only read.
    pub fn update(&mut self, global: &mut Data, event: UpdateEvent) -> (a: Action<GameScene>)
        requires
            old(self).inv(),
        ensures
            final(self).inv(),
            *final(global) == *old(global),
            *final(self) == old(self).spec_update(*old(global), event).0,
            a == old(self).spec_update(*old(global), event).1,
    {
        match &event {
            UpdateEvent::Key(k) => {
                if *k == global.up {
                    if self.selected == 0 {
                        self.selected = self.list.len() - 1;
                    } else {
                        self.selected = self.selected - 1;
                    }
                }
                if *k == global.down {
                    if self.selected == self.list.len() - 1 {
                        self.selected = 0;
                    } else {
                        self.selected = self.selected + 1;
                    }
                }
                if *k == global.forward && self.selected == OPTIONS_ENTRY {
                    return Action::NewScene(GameScene::Options(Options {  }));
                }
                Action::Continue
            },
            _ => Action::Continue,
        }
    }
}

impl Default for TitleScreen {
    /// The initial title menu: the fixed entries with the highlight on the
    /// first.
    fn default() -> (s: Self)
        ensures
            s.inv(),
            s.selected == 0,
    {
        let mut list: Vec<String> = Vec::new();
        list.push(String::from_str("Continue"));
        list.push(String::from_str("New Game"));
        list.push(String::from_str("Options"));
        TitleScreen { selected: 0, list }
    }
}

} // verus!
