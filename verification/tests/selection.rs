use terse::posts::post_widget::PostWidget;
use terse::posts::posts::Post;
use terse::tui::keys::{KeyCode, KeyEvent};
use terse::tui::selectable::Selectable;
use terse::tui::selection::{ListSelection, ScrollState};

#[test]
fn list_selection_moves_as_the_list_widget_does() {
    let mut s = ListSelection::new();
    s.select_next();
    assert_eq!(s.selected(), Some(0));
    s.select_next();
    assert_eq!(s.selected(), Some(1));
    s.select_previous();
    s.select_previous();
    assert_eq!(s.selected(), Some(0));

    let mut none = ListSelection::new();
    none.select_previous();
    assert_eq!(none.selected(), Some(usize::MAX));
    none.fit_to(4);
    assert_eq!(none.selected(), Some(3));
    none.fit_to(0);
    assert_eq!(none.selected(), None);

    let mut top = ListSelection::with_selected(Some(usize::MAX));
    top.select_next();
    assert_eq!(top.selected(), Some(usize::MAX));
}

#[test]
fn scrolling_by_an_amount() {
    let mut s = ListSelection::new();
    s.scroll_down_by(3);
    assert_eq!(s.selected(), Some(3));
    s.scroll_up_by(5);
    assert_eq!(s.selected(), Some(0));
    s.select(None);
    s.scroll_up_by(1);
    assert_eq!(s.selected(), Some(0));
}

#[test]
fn scrollbar_stays_within_the_content() {
    let mut s = ScrollState::new(3);
    s.prev();
    assert_eq!(s.position, 0);
    s.next();
    s.next();
    s.next();
    assert_eq!(s.position, 2);
    let mut empty = ScrollState::new(0);
    empty.next();
    assert_eq!(empty.position, 0);
}

#[test]
fn selectable_moves_and_picks() {
    let mut list = Selectable::new(vec!["a", "b", "c"]);
    assert_eq!(list.selected_item(), Some(&"a"));
    list.handle_key_event(KeyEvent::plain(KeyCode::Char('j')));
    list.handle_key_event(KeyEvent::plain(KeyCode::Char('j')));
    assert_eq!(list.selected_item(), Some(&"c"));
    list.handle_key_event(KeyEvent::plain(KeyCode::Char('j')));
    assert_eq!(list.selected_item(), None);
    list.handle_key_event(KeyEvent::plain(KeyCode::Char('k')));
    assert_eq!(list.selected_item(), Some(&"c"));
    list.handle_key_event(KeyEvent::plain(KeyCode::Char('x')));
    assert_eq!(list.selected_item(), Some(&"c"));
}

#[test]
fn post_widget_scrolls_within_its_text() {
    let post = Post::new("t".to_string(), "one\ntwo\nthree\nfour\n".to_string());
    let mut w = PostWidget::new(post);
    assert_eq!(w.height, 4);
    assert_eq!(w.scroll_state, ScrollState { content_length: 4, position: 0 });
    w.handle_key_event(KeyEvent::plain(KeyCode::Char('j')));
    w.handle_key_event(KeyEvent::plain(KeyCode::Char('j')));
    assert_eq!(w.scroll_state.position, 2);
    assert_eq!(w.fit_to_view(3), 1);
    assert_eq!(w.scroll_state, ScrollState { content_length: 2, position: 1 });
    assert_eq!(w.fit_to_view(10), 0);
    assert_eq!(w.scroll_state, ScrollState { content_length: 1, position: 0 });
    w.handle_key_event(KeyEvent::plain(KeyCode::Char('k')));
    assert_eq!(w.scroll_state.position, 0);
    assert_eq!(w.get_labels(), vec![" j: down ".to_string(), " k: up ".to_string()]);
}
