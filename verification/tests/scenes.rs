use engine::event::{KeyCode, KeyPress, MouseInput, UpdateEvent};
use engine::game::{Data, GameScene};
use engine::options::Options;
use engine::scene::{Action, Scene};
use engine::title_screen::{TitleScreen, OPTIONS_ENTRY};

fn plain(code: KeyCode) -> KeyPress {
    KeyPress { code, ctrl: false, alt: false, shift: false }
}

fn bindings() -> Data {
    Data {
        up: plain(KeyCode::Up),
        down: plain(KeyCode::Down),
        left: plain(KeyCode::Left),
        right: plain(KeyCode::Right),
        forward: plain(KeyCode::Char('x')),
        back: plain(KeyCode::Char('z')),
    }
}

#[test]
fn default_menu_has_three_entries() {
    let t = TitleScreen::default();
    assert_eq!(t.selected, 0);
    assert_eq!(t.list.len(), 3);
    assert_eq!(t.list[0], "Continue");
    assert_eq!(t.list[1], "New Game");
    assert_eq!(t.list[2], "Options");
    assert_eq!(t.list[OPTIONS_ENTRY], "Options");
}

#[test]
fn menu_title() {
    assert_eq!(TitleScreen::default().title(), "Title Screen");
}

#[test]
fn options_title() {
    assert_eq!(Options {}.title(), "options");
}

#[test]
fn scene_dispatch_reports_the_live_variant_title() {
    let menu = GameScene::Title(TitleScreen::default());
    let opts = GameScene::Options(Options {});
    assert_eq!(menu.title(), "Title Screen");
    assert_eq!(opts.title(), "options");
}

#[test]
fn menu_highlight_wraps_upward() {
    let mut t = TitleScreen::default();
    let mut g = bindings();
    let a = t.update(&mut g, UpdateEvent::Key(plain(KeyCode::Up)));
    assert!(matches!(a, Action::Continue));
    assert_eq!(t.selected, 2);
}

#[test]
fn menu_highlight_wraps_downward() {
    let mut t = TitleScreen::default();
    t.selected = 2;
    let mut g = bindings();
    let a = t.update(&mut g, UpdateEvent::Key(plain(KeyCode::Down)));
    assert!(matches!(a, Action::Continue));
    assert_eq!(t.selected, 0);
}

#[test]
fn menu_highlight_moves_one_step() {
    let mut t = TitleScreen::default();
    let mut g = bindings();
    t.update(&mut g, UpdateEvent::Key(plain(KeyCode::Down)));
    assert_eq!(t.selected, 1);
    t.update(&mut g, UpdateEvent::Key(plain(KeyCode::Up)));
    assert_eq!(t.selected, 0);
}

#[test]
fn menu_forward_elsewhere_continues() {
    let mut t = TitleScreen::default();
    let mut g = bindings();
    let a = t.update(&mut g, UpdateEvent::Key(plain(KeyCode::Char('x'))));
    assert!(matches!(a, Action::Continue));
    assert_eq!(t.selected, 0);
}

#[test]
fn menu_forward_on_options_entry_pushes_options() {
    let mut t = TitleScreen::default();
    t.selected = OPTIONS_ENTRY;
    let mut g = bindings();
    let a = t.update(&mut g, UpdateEvent::Key(plain(KeyCode::Char('x'))));
    assert!(matches!(a, Action::NewScene(GameScene::Options(_))));
}

#[test]
fn menu_ignores_other_events() {
    let mut t = TitleScreen::default();
    let mut g = bindings();
    let a = t.update(&mut g, UpdateEvent::Tick);
    assert!(matches!(a, Action::Continue));
    let a = t.update(&mut g, UpdateEvent::Mouse(MouseInput { column: 1, row: 1 }));
    assert!(matches!(a, Action::Continue));
    assert_eq!(t.selected, 0);
}

#[test]
fn options_back_ends_the_scene() {
    let mut o = Options {};
    let mut g = bindings();
    let a = o.update(&mut g, UpdateEvent::Key(plain(KeyCode::Char('z'))));
    assert!(matches!(a, Action::End));
}

#[test]
fn options_ignores_everything_else() {
    let mut o = Options {};
    let mut g = bindings();
    let a = o.update(&mut g, UpdateEvent::Key(plain(KeyCode::Char('x'))));
    assert!(matches!(a, Action::Continue));
    let a = o.update(&mut g, UpdateEvent::Tick);
    assert!(matches!(a, Action::Continue));
    let a = o.update(&mut g, UpdateEvent::Paste(String::from("zz")));
    assert!(matches!(a, Action::Continue));
}

#[test]
fn scene_dispatch_updates_the_live_variant() {
    let mut s = GameScene::Title(TitleScreen::default());
    let mut g = bindings();
    let a = s.update(&mut g, UpdateEvent::Key(plain(KeyCode::Down)));
    assert!(matches!(a, Action::Continue));
    match &s {
        GameScene::Title(t) => assert_eq!(t.selected, 1),
        _ => panic!("the menu variant should still be live"),
    }

    let mut s = GameScene::Options(Options {});
    let a = s.update(&mut g, UpdateEvent::Key(plain(KeyCode::Char('z'))));
    assert!(matches!(a, Action::End));
}
