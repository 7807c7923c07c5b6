use terse::network::address::ServerUrl;
use terse::network::search::{SearchResult, SearchResultHeader};
use terse::network::server::Server;
use terse::network::server_list::ServerList;
use terse::posts::posts::Post;
use terse::tui::keys::{KeyCode, KeyEvent};
use terse::tui::search_menu::search_bar_menu::{SearchBarMenu, SearchBarMenuAction, SearchBarMenuMode};
use terse::tui::search_menu::search_menu::{error_banner_text, SearchMenu, SearchMenuMode, SearchMenuRequest};
use terse::tui::search_menu::search_bar::SearchBar;
use terse::tui::search_menu::search_server_select::SearchServerSelector;
use terse::tui::size::MinSize;

fn url(text: &str) -> ServerUrl {
    ServerUrl::parse(text).expect("a valid url")
}

fn servers() -> ServerList {
    let mut list = ServerList::new();
    list.add_server(url("https://a.example/"), false);
    list.add_server(url("https://b.example/"), true);
    list.add_server(url("https://c.example/"), false);
    list
}

fn result(id: u16) -> SearchResult {
    SearchResult::new(
        SearchResultHeader::new(format!("post {id}"), id),
        Server::new(url("https://b.example/"), None),
    )
}

fn plain(c: char) -> KeyEvent {
    KeyEvent::plain(KeyCode::Char(c))
}

fn ctrl(c: char) -> KeyEvent {
    KeyEvent::with_ctrl(KeyCode::Char(c))
}

#[test]
fn the_picker_starts_on_the_server_in_use_and_goes_round() {
    let mut picker = SearchServerSelector::new(&servers());
    assert_eq!(picker.selected(), 1);
    picker.handle_key_event(plain('j'));
    assert_eq!(picker.current_server().url().as_str(), "https://c.example/");
    picker.handle_key_event(plain('j'));
    assert_eq!(picker.selected(), 0);
    picker.handle_key_event(plain('k'));
    assert_eq!(picker.selected(), 0);
    assert_eq!(picker.get_labels(), vec![" j: next ".to_string(), " k: prev ".to_string()]);
}

#[test]
fn the_search_line_switches_between_bar_and_picker() {
    let mut line = SearchBarMenu::new(SearchBar::new("ru".to_string()), SearchServerSelector::new(&servers()));
    assert!(matches!(line.handle_key_event(plain('s')), SearchBarMenuAction::Nothin));
    assert!(matches!(line.handle_key_event(ctrl('l')), SearchBarMenuAction::Nothin));
    assert_eq!(line.mode, SearchBarMenuMode::Server);
    line.handle_key_event(plain('j'));
    assert!(matches!(line.handle_key_event(ctrl('h')), SearchBarMenuAction::Nothin));
    match line.handle_key_event(KeyEvent::plain(KeyCode::Enter)) {
        SearchBarMenuAction::Search { query, server } => {
            assert_eq!(query, "rus");
            assert_eq!(server.url().as_str(), "https://c.example/");
        }
        SearchBarMenuAction::Nothin => panic!("a search was asked for"),
    }
    line.handle_key_event(ctrl('l'));
    line.deselect();
    assert_eq!(line.mode, SearchBarMenuMode::Search);
    assert_eq!(line.get_min_size(), MinSize::new(17, 3));
}

#[test]
fn the_first_search_is_asked_for_on_the_server_in_use() {
    let (menu, request) = SearchMenu::new("rust".to_string(), &servers());
    assert_eq!(menu.mode, SearchMenuMode::Search);
    assert_eq!(menu.results.as_ref().err().map(|s| s.as_str()), Some("WAITING AND THIS SHOULD BE A SPECIAL TYPE..."));
    match request {
        SearchMenuRequest::Search { query, server } => {
            assert_eq!(query, "rust");
            assert_eq!(server.url().as_str(), "https://b.example/");
        }
        _ => panic!("the first search is asked for"),
    }
}

#[test]
fn searches_with_no_results_say_so() {
    let (mut menu, _) = SearchMenu::new("rust".to_string(), &servers());
    menu.search_done(Ok(vec![]));
    assert_eq!(menu.results.as_ref().err().map(|s| s.as_str()), Some("No results matching that query!"));
    assert_eq!(menu.mode, SearchMenuMode::Search);
    menu.search_done(Err("I couldn't connect".to_string()));
    assert_eq!(menu.results.as_ref().err().map(|s| s.as_str()), Some("I couldn't connect"));
    assert_eq!(error_banner_text("oops"), "(!) There was an error: oops (!)");
}

#[test]
fn results_take_the_keys_and_ask_for_posts() {
    let (mut menu, _) = SearchMenu::new("rust".to_string(), &servers());
    menu.search_done(Ok(vec![result(1), result(2)]));
    assert_eq!(menu.mode, SearchMenuMode::Results);
    match menu.handle_key_event(KeyEvent::plain(KeyCode::Enter)) {
        SearchMenuRequest::FetchPost(r) => {
            assert_eq!(r.header.postid, 1);
            menu.post_fetched(r, Post::new("post 1".to_string(), "hello".to_string()));
        }
        _ => panic!("the post is asked for"),
    }
    assert!(matches!(menu.handle_key_event(ctrl('k')), SearchMenuRequest::Nothing));
    assert_eq!(menu.mode, SearchMenuMode::Search);
    assert!(matches!(menu.handle_key_event(plain('x')), SearchMenuRequest::Nothing));
    assert_eq!(menu.search_menu.search_bar.text, "rustx");
    match menu.handle_key_event(KeyEvent::plain(KeyCode::Enter)) {
        SearchMenuRequest::Search { query, .. } => assert_eq!(query, "rustx"),
        _ => panic!("a search is asked for"),
    }
    assert!(matches!(menu.handle_key_event(ctrl('j')), SearchMenuRequest::Nothing));
    assert_eq!(menu.mode, SearchMenuMode::Results);
}
