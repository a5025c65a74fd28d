use vstd::prelude::*;

use crate::event::{KeyPress, UpdateEvent};
use crate::options::Options;
use crate::scene::{Action, Scene};
use crate::title_screen::TitleScreen;

verus! {

/// The key bindings the concrete scenes read from the shared global state.
#[derive(Clone, Copy, PartialEq, Eq, Structural, Debug)]
pub struct Data {
    pub up: KeyPress,
    pub down: KeyPress,
    pub left: KeyPress,
    pub right: KeyPress,
    pub forward: KeyPress,
    pub back: KeyPress,
}

/// The closed set of concrete scenes; it hands the scene interface on to
/// whichever variant is live.
pub enum GameScene {
    Title(TitleScreen),
    Options(Options),
}

impl Scene<Data> for GameScene {
    open spec fn inv(&self) -> bool {
        match self {
            GameScene::Title(t) => t.inv(),
            GameScene::Options(_) => true,
        }
    }

    open spec fn step(self, global: Data, event: UpdateEvent) -> (Self, Data, Action<Self>) {
        match self {
            GameScene::Title(t) => {
                let (t2, a) = t.spec_update(global, event);
                (GameScene::Title(t2), global, a)
            },
            GameScene::Options(_) => (self, global, Options::spec_update(global, event)),
        }
    }

    fn title(&self) -> (t: String) {
        match self {
            GameScene::Title(s) => s.title(),
            GameScene::Options(s) => s.title(),
        }
    }

    fn update(&mut self, global: &mut Data, event: UpdateEvent) -> (a: Action<GameScene>) {
        match self {
            GameScene::Title(s) => s.update(global, event),
            GameScene::Options(s) => s.update(global, event),
        }
    }
}

} // verus!
