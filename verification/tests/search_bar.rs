use terse::tui::keys::{KeyCode, KeyEvent};
use terse::tui::search_menu::search_bar::SearchBar;
use terse::tui::size::MinSize;

fn key(code: KeyCode) -> KeyEvent {
    KeyEvent::plain(code)
}

#[test]
fn typing_builds_the_query() {
    let mut bar = SearchBar::new("ru".to_string());
    assert_eq!(bar.handle_key_event(key(KeyCode::Char('s'))), None);
    assert_eq!(bar.handle_key_event(key(KeyCode::Char('t'))), None);
    assert_eq!(bar.text, "rust");
    assert_eq!(bar.handle_key_event(key(KeyCode::Enter)), Some("rust".to_string()));
    assert_eq!(bar.text, "rust");
}

#[test]
fn backspace_removes_the_last_char() {
    let mut bar = SearchBar::new("ab".to_string());
    bar.handle_key_event(key(KeyCode::Char('c')));
    bar.handle_key_event(key(KeyCode::Backspace));
    assert_eq!(bar.text, "ab");
    bar.handle_key_event(key(KeyCode::Backspace));
    bar.handle_key_event(key(KeyCode::Backspace));
    bar.handle_key_event(key(KeyCode::Backspace));
    assert_eq!(bar.text, "");
}

#[test]
fn empty_query_is_not_searched() {
    let mut bar = SearchBar::new(String::new());
    assert_eq!(bar.handle_key_event(key(KeyCode::Enter)), None);
    assert_eq!(bar.handle_key_event(key(KeyCode::Esc)), None);
    assert_eq!(bar.handle_key_event(key(KeyCode::Other)), None);
    assert_eq!(bar.text, "");
}

#[test]
fn bar_labels_and_size() {
    let bar = SearchBar::new(String::new());
    assert_eq!(bar.get_labels(), vec![" enter: search ".to_string()]);
    assert_eq!(bar.get_min_size(), MinSize::new(17, 3));
}
