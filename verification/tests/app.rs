use terse::tui::app::App;
use terse::tui::blinker::Blinker;
use terse::tui::keys::{KeyCode, KeyEvent, KeyEventKind};

#[test]
fn escape_ends_the_interface() {
    let mut app = App::new();
    let k = KeyEvent::plain(KeyCode::Char('a'));
    assert_eq!(app.handle_key(k), Some(k));
    assert!(!app.exit);
    let release = KeyEvent { code: KeyCode::Esc, ctrl: false, kind: KeyEventKind::Release };
    assert_eq!(app.handle_key(release), None);
    assert!(!app.exit);
    let repeat = KeyEvent { code: KeyCode::Esc, ctrl: false, kind: KeyEventKind::Repeat };
    assert_eq!(app.handle_key(repeat), None);
    assert!(app.exit);
    app.handle_key(k);
    assert!(app.exit);
}

#[test]
fn the_blinker_alternates() {
    let mut b = Blinker::new();
    assert!(!b.blink());
    assert!(b.blink());
    assert!(!b.blink());
}
