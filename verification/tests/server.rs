use terse::network::address::ServerUrl;
use terse::network::login_info::LoginInfo;
use terse::network::server::{Server, ServerSerializer};
use terse::network::server_list::{ServerList, ServerListError};

fn url(text: &str) -> ServerUrl {
    ServerUrl::parse(text).expect("a valid url")
}

fn plain() {
    colored::control::set_override(false);
}

fn signed_in(u: &str) -> Server {
    Server::new(url(u), Some(LoginInfo::new("me@example.org".into(), "pw".into())))
}

#[test]
fn user_string_names_the_account_and_the_url() {
    assert_eq!(signed_in("https://terse.example/").user_string(), "me@example.org on https://terse.example/");
    let s = Server::new(url("https://terse.example/"), None);
    assert_eq!(s.user_string(), "(Not signed in) on https://terse.example/");
    assert!(!s.is_signed_in());
    assert!(signed_in("https://x.example/").is_signed_in());
}

#[test]
fn server_is_listed_on_two_lines() {
    plain();
    let s = signed_in("https://terse.example/");
    assert_eq!(s.as_string(false, false), "https://terse.example/\nSigned in as me@example.org\n");
    assert_eq!(s.as_string(true, true), "https://terse.example/\nSigned in as me@example.org (pw)\n");
    assert_eq!(s.to_string(), s.as_string(false, false));
    let t = Server::new(url("https://other.example/"), None);
    assert_eq!(t.as_string(true, false), "https://other.example/\n(Not signed in)\n");
}

#[test]
fn request_urls_get_the_route_and_query() {
    let s = Server::new(url("https://terse.example/"), None);
    assert_eq!(
        s.url_with_params("search", "query=rust"),
        Some("https://terse.example/search?query=rust".to_string())
    );
    assert_eq!(s.url_with_params("posts", "id=7"), Some("https://terse.example/posts?id=7".to_string()));
}

#[test]
fn stored_servers_are_parsed_back() {
    let stored = ServerSerializer { url: "HTTPS://Terse.Example".to_string(), login_info: None };
    let s = Server::try_from_serializer(stored).expect("a valid url");
    assert_eq!(s.url().as_str(), "https://terse.example/");
    let bad = ServerSerializer { url: "::".to_string(), login_info: None };
    assert!(Server::try_from_serializer(bad).is_none());
    let back = signed_in("https://a.example/").into_serializer();
    assert_eq!(back.url, "https://a.example/");
    assert_eq!(back.login_info.map(|l| l.email), Some("me@example.org".to_string()));
}

#[test]
fn servers_compare_by_url_and_account() {
    assert!(signed_in("https://a.example/").eq(&signed_in("https://a.example/")));
    assert!(!signed_in("https://a.example/").eq(&signed_in("https://b.example/")));
    assert!(!signed_in("https://a.example/").eq(&Server::new(url("https://a.example/"), None)));
    let mut s = Server::new(url("https://a.example/"), None);
    s.set_login_info(LoginInfo::new("me@example.org".into(), "pw".into()));
    assert!(s.eq(&signed_in("https://a.example/")));
}

#[test]
fn server_list_keeps_track_of_the_server_in_use() {
    plain();
    let mut list = ServerList::new();
    assert_eq!(list.get_default().err(), Some(ServerListError::NoDefaultServer));
    list.add_server(url("https://a.example/"), false);
    assert_eq!(list.default, None);
    list.add_server(url("https://b.example/"), true);
    assert_eq!(list.default, Some(1));
    assert_eq!(list.get_default().unwrap().url().as_str(), "https://b.example/");
    assert!(list.get_server(2).is_none());
    assert_eq!(list.set_server(0), Ok(()));
    assert_eq!(list.set_server(5), Err(ServerListError::NoSuchServer));
    assert_eq!(list.get_default().unwrap().url().as_str(), "https://a.example/");
    assert_eq!(
        list.as_string(false),
        "https://a.example/\n(Not signed in)\nhttps://b.example/\n(Not signed in)\n"
    );
}

#[test]
fn removing_a_server_keeps_the_one_in_use() {
    let mut list = ServerList::new();
    list.add_server(url("https://a.example/"), false);
    list.add_server(url("https://b.example/"), false);
    list.add_server(url("https://c.example/"), true);
    assert_eq!(list.remove_server("https://a.example/"), Ok(()));
    assert_eq!(list.default, Some(1));
    assert_eq!(list.get_default().unwrap().url().as_str(), "https://c.example/");
    assert_eq!(list.remove_server("https://zzz.example/"), Err(ServerListError::NoSuchServer));
    assert_eq!(list.remove_server("https://c.example/"), Ok(()));
    assert_eq!(list.default, None);
    assert_eq!(list.servers.len(), 1);
}

#[test]
fn adding_then_removing_gives_the_list_back() {
    let mut list = ServerList::new();
    list.add_server(url("https://a.example/"), true);
    list.add_server(url("https://new.example/"), false);
    list.remove_server("https://new.example/").unwrap();
    assert_eq!(list.servers.len(), 1);
    assert_eq!(list.servers[0].url().as_str(), "https://a.example/");
    assert_eq!(list.default, Some(0));
}

#[test]
fn signing_in_changes_only_the_server_in_use() {
    let mut list = ServerList::new();
    let login = LoginInfo::new("me@example.org".into(), "pw".into());
    assert_eq!(list.set_default_login_info(login.clone()), Err(ServerListError::NoDefaultServer));
    list.add_server(url("https://a.example/"), false);
    list.add_server(url("https://b.example/"), true);
    assert_eq!(list.set_default_login_info(login), Ok(()));
    assert!(!list.servers[0].is_signed_in());
    assert!(list.servers[1].is_signed_in());
    assert_eq!(ServerListError::NoSuchServer.message(), "There is no such server");
}

#[test]
fn the_default_display_hides_the_password() {
    plain();
    let a = Server::new(url("https://a.example/"), Some(LoginInfo::new("me@example.org".into(), "one".into())));
    let b = Server::new(url("https://a.example/"), Some(LoginInfo::new("me@example.org".into(), "two".into())));
    assert_eq!(a.to_string(), b.to_string());
    assert_eq!(a.to_string(), a.as_string(false, false));
    assert!(!a.to_string().contains("one"));
    let la = LoginInfo::new("me@example.org".into(), "one".into());
    let lb = LoginInfo::new("me@example.org".into(), "two".into());
    assert_eq!(la.as_string(false), lb.as_string(false));
    assert_eq!(la.to_string(), lb.to_string());
}

#[test]
fn a_stored_server_reads_back_the_same() {
    let s = signed_in("https://a.example/path?q=1");
    let back = Server::try_from_serializer(s.clone().into_serializer()).expect("it parses");
    assert!(back.eq(&s));
}
