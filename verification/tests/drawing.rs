use terse::network::address::ServerUrl;
use terse::network::search::{results_on, SearchResult, SearchResultHeader};
use terse::network::server::Server;
use terse::network::server_list::ServerList;
use terse::network::routes::publish_url;
use terse::posts::posts::Post;
use terse::tui::keys::{KeyCode, KeyEvent};
use terse::tui::look::PartLook;
use terse::tui::search_menu::search_bar::SearchBar;
use terse::tui::search_menu::search_bar_menu::SearchBarMenu;
use terse::tui::search_menu::search_menu::SearchMenu;
use terse::tui::search_menu::search_results::{SearchResults, SearchResultsMenu};
use terse::tui::search_menu::search_server_select::SearchServerSelector;

fn url(text: &str) -> ServerUrl {
    ServerUrl::parse(text).expect("a valid url")
}

fn servers() -> ServerList {
    let mut list = ServerList::new();
    list.add_server(url("https://a.example/"), true);
    list.add_server(url("https://b.example/"), false);
    list
}

fn hint(l: &PartLook) -> Option<&str> {
    match l {
        PartLook::GreyedOut { hint } => Some(hint),
        _ => None,
    }
}

#[test]
fn the_search_screen_greys_the_half_without_the_keys() {
    let (mut menu, _) = SearchMenu::new("q".to_string(), &servers());
    let (results, bar) = menu.part_looks(true);
    assert_eq!(hint(&results), Some("ctrl+j"));
    assert!(matches!(bar, PartLook::WithHelp));
    let (results, _) = menu.part_looks(false);
    assert_eq!(hint(&results), Some(""));
    let server = Server::new(url("https://a.example/"), None);
    menu.search_done(Ok(vec![SearchResult::new(SearchResultHeader::new("t".to_string(), 1), server)]));
    let (results, bar) = menu.part_looks(true);
    assert!(matches!(results, PartLook::Plain));
    assert_eq!(hint(&bar), Some("ctrl+k"));
}

#[test]
fn the_search_line_shows_help_only_where_it_has_the_keys() {
    let mut line = SearchBarMenu::new(SearchBar::new(String::new()), SearchServerSelector::new(&servers()));
    let (bar, picker) = line.part_looks(true);
    assert!(matches!(bar, PartLook::WithHelp));
    assert_eq!(hint(&picker), Some("ctrl-l"));
    let (bar, picker) = line.part_looks(false);
    assert!(matches!(bar, PartLook::Plain));
    assert_eq!(hint(&picker), Some(""));
    line.handle_key_event(KeyEvent::with_ctrl(KeyCode::Char('l')));
    let (bar, picker) = line.part_looks(true);
    assert_eq!(hint(&bar), Some("ctrl-h"));
    assert!(matches!(picker, PartLook::WithHelp));
}

#[test]
fn the_results_screen_points_back_to_the_list() {
    let server = Server::new(url("https://a.example/"), None);
    let r = SearchResult::new(SearchResultHeader::new("t".to_string(), 1), server);
    let mut menu = SearchResultsMenu::new(SearchResults::new(vec![r.clone()]));
    let (list, post) = menu.part_looks(true);
    assert!(matches!(list, PartLook::WithHelp));
    assert_eq!(hint(&post), Some(""));
    menu.show_fetched_post(r, Post::new("t".to_string(), "body".to_string()));
    let (list, post) = menu.part_looks(true);
    assert_eq!(hint(&list), Some("b"));
    assert!(matches!(post, PartLook::WithHelp));
    assert_eq!(hint(&menu.part_looks(false).0), Some(""));
}

#[test]
fn search_answers_are_bound_to_the_server_searched() {
    let server = Server::new(url("https://b.example/"), None);
    let found = results_on(
        vec![SearchResultHeader::new("one".to_string(), 4), SearchResultHeader::new("two".to_string(), 9)],
        &server,
    );
    assert_eq!(found.len(), 2);
    assert_eq!(found[0].header.title, "one");
    assert_eq!(found[1].header.postid, 9);
    assert!(found[1].server.eq(&server));
    assert!(results_on(vec![], &server).is_empty());
}

#[test]
fn posts_are_published_to_the_posts_route() {
    let server = Server::new(url("https://b.example/base"), None);
    assert_eq!(publish_url(&server), Some("https://b.example/posts?".to_string()));
}

#[test]
fn server_urls_are_what_the_parser_made() {
    assert_eq!(url("HTTPS://B.Example").as_str(), "https://b.example/");
    assert!(ServerUrl::parse("not a url").is_none());
    assert!(url("https://b.example/").has_text("https://b.example/"));
    assert!(!url("https://b.example/").has_text("https://b.example"));
}
