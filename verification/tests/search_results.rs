use terse::network::address::ServerUrl;
use terse::network::search::{SearchResult, SearchResultHeader};
use terse::network::server::Server;
use terse::posts::posts::Post;
use terse::tui::keys::{KeyCode, KeyEvent};
use terse::tui::search_menu::search_results::{
    SearchResults, SearchResultsAction, SearchResultsMenu, SearchResultsMenuMode,
};

fn url(text: &str) -> ServerUrl {
    ServerUrl::parse(text).expect("a valid url")
}

fn result(title: &str, id: u16) -> SearchResult {
    SearchResult::new(
        SearchResultHeader::new(title.to_string(), id),
        Server::new(url("https://terse.example/"), None),
    )
}

fn key(c: char) -> KeyEvent {
    KeyEvent::plain(KeyCode::Char(c))
}

fn post(title: &str) -> Post {
    Post::new(title.to_string(), format!("text of {title}\nsecond line"))
}

#[test]
fn results_start_on_the_first_with_nothing_fetched() {
    let r = SearchResults::new(vec![result("one", 1), result("two", 2)]);
    assert_eq!(r.selected(), Some(0));
    assert!(!r.has_selected_article());
    match r.get_selected_article() {
        Err(q) => assert_eq!(q.header.postid, 1),
        Ok(_) => panic!("nothing was fetched"),
    }
}

#[test]
fn fetched_posts_are_kept() {
    let mut r = SearchResults::new(vec![result("one", 1), result("two", 2)]);
    let kept = r.store_post(result("one", 1), post("one"));
    assert_eq!(kept.title, "one");
    assert!(r.has_selected_article());
    let again = r.store_post(result("one", 1), post("changed"));
    assert_eq!(again.title, "one");
    match r.get_selected_article() {
        Ok(p) => assert_eq!(p.title, "one"),
        Err(_) => panic!("the post was fetched"),
    }
}

#[test]
fn the_selection_is_held_within_the_results() {
    let mut r = SearchResults::new(vec![result("one", 1), result("two", 2)]);
    assert_eq!(r.handle_key_event(key('j')), SearchResultsAction::Moved);
    assert_eq!(r.handle_key_event(key('j')), SearchResultsAction::Moved);
    assert_eq!(r.selected(), Some(2));
    match r.get_selected_article() {
        Err(q) => assert_eq!(q.header.postid, 2),
        Ok(_) => panic!("nothing was fetched"),
    }
    r.fit_selection();
    assert_eq!(r.selected(), Some(1));
    assert_eq!(r.handle_key_event(KeyEvent::plain(KeyCode::Enter)), SearchResultsAction::Selected);
    assert_eq!(r.handle_key_event(key('x')), SearchResultsAction::Nothin);
}

#[test]
fn width_is_the_widest_title_in_bytes() {
    let r = SearchResults::new(vec![result("one", 1), result("three", 3), result("é", 4)]);
    assert_eq!(r.get_width(), 5);
    let wide = SearchResults::new(vec![result("ééé", 1)]);
    assert_eq!(wide.get_width(), 6);
    let short = SearchResults::new(vec![result("ab", 1)]);
    assert_eq!(short.get_width(), 2);
    assert_eq!(SearchResults::new(vec![]).get_width(), 10);
    assert_eq!(
        r.get_labels(),
        vec![" j: down ".to_string(), " k: up ".to_string(), " enter: select ".to_string()]
    );
}

#[test]
fn choosing_a_result_asks_for_its_post_then_shows_it() {
    let mut menu = SearchResultsMenu::new(SearchResults::new(vec![result("one", 1), result("two", 2)]));
    let asked = menu.handle_key_event(KeyEvent::plain(KeyCode::Enter)).expect("a post to fetch");
    assert_eq!(asked.header.postid, 1);
    assert_eq!(menu.mode, SearchResultsMenuMode::Results);
    menu.show_fetched_post(asked, post("one"));
    assert_eq!(menu.mode, SearchResultsMenuMode::Post);
    let w = menu.post_widget.as_ref().expect("the post is shown");
    assert_eq!(w.post.title, "one");
    assert_eq!(w.height, 2);

    assert!(menu.handle_key_event(key('j')).is_none());
    assert_eq!(menu.post_widget.as_ref().unwrap().scroll_state.position, 1);
    assert!(menu.handle_key_event(key('b')).is_none());
    assert_eq!(menu.mode, SearchResultsMenuMode::Results);
}

#[test]
fn moving_shows_fetched_posts_only() {
    let mut menu = SearchResultsMenu::new(SearchResults::new(vec![result("one", 1), result("two", 2)]));
    let asked = menu.handle_key_event(KeyEvent::plain(KeyCode::Enter)).unwrap();
    menu.show_fetched_post(asked, post("one"));
    menu.handle_key_event(key('b'));
    assert!(menu.handle_key_event(key('j')).is_none());
    assert!(menu.post_widget.is_none());
    assert!(menu.handle_key_event(key('k')).is_none());
    assert_eq!(menu.post_widget.as_ref().unwrap().post.title, "one");
    assert!(menu.handle_key_event(KeyEvent::plain(KeyCode::Enter)).is_none());
    assert_eq!(menu.mode, SearchResultsMenuMode::Post);
    menu.deselect();
    assert_eq!(menu.mode, SearchResultsMenuMode::Results);
}
