use terse::network::address::ServerUrl;
use terse::cli::server_subcommand::{
    signed_in_message, wrong_password_message, ServerCommandOutcome, ServerSubcommand,
};
use terse::cli::{after_command, read_failed_message, write_failed_message, AfterCommand, Cli};
use terse::network::login_info::LoginInfo;
use terse::network::server::Server;
use terse::network::server_list::{ServerList, ServerListError};

fn url(text: &str) -> ServerUrl {
    ServerUrl::parse(text).expect("a valid url")
}

fn args(v: &[&str]) -> Vec<String> {
    v.iter().map(|s| s.to_string()).collect()
}

#[test]
fn bare_words_start_a_search() {
    assert_eq!(
        Cli::with_search_shortcut(args(&["ts", "rust", "borrow"])),
        args(&["ts", "--search", "rust", "borrow"])
    );
    assert_eq!(Cli::with_search_shortcut(args(&["ts", "--stats"])), args(&["ts", "--stats"]));
    assert_eq!(Cli::with_search_shortcut(args(&["ts", "help"])), args(&["ts", "help"]));
    assert_eq!(Cli::with_search_shortcut(args(&["ts"])), args(&["ts"]));
    assert_eq!(Cli::with_search_shortcut(args(&["ts", ""])), args(&["ts", "--search", ""]));
    let once = Cli::with_search_shortcut(args(&["ts", "x"]));
    assert_eq!(Cli::with_search_shortcut(once.clone()), once);
}

#[test]
fn the_query_is_the_words_joined() {
    assert_eq!(Cli::search_query(&args(&["rust", "borrow", "checker"])), "rust borrow checker");
    assert_eq!(Cli::search_query(&args(&[])), "");
}

#[test]
fn server_commands_change_the_list_and_say_so() {
    colored::control::set_override(false);
    let mut list = ServerList::new();
    match (ServerSubcommand::Add { url: url("https://a.example/"), stay: false }).process(&mut list) {
        ServerCommandOutcome::Message(m) => assert_eq!(m, "I successfully added https://a.example/ to the list of servers!"),
        _ => panic!("the server is added"),
    }
    assert_eq!(list.default, Some(0));
    match (ServerSubcommand::Add { url: url("https://b.example/"), stay: true }).process(&mut list) {
        ServerCommandOutcome::Message(_) => {}
        _ => panic!("the server is added"),
    }
    assert_eq!(list.default, Some(0));
    match (ServerSubcommand::SetServer { idx: 1 }).process(&mut list) {
        ServerCommandOutcome::Message(m) => {
            assert_eq!(m, "I successfully set the server to 1: https://b.example/\n(Not signed in)\n")
        }
        _ => panic!("the server is set"),
    }
    match (ServerSubcommand::SetServer { idx: 9 }).process(&mut list) {
        ServerCommandOutcome::Failed(e) => assert_eq!(e, ServerListError::NoSuchServer),
        _ => panic!("there is no such server"),
    }
    match (ServerSubcommand::Remove { url: url("https://a.example/") }).process(&mut list) {
        ServerCommandOutcome::Message(m) => assert_eq!(m, "I successfully removed https://a.example/ from the list of servers"),
        _ => panic!("the server is removed"),
    }
    match (ServerSubcommand::List { show_passwords: false }).process(&mut list) {
        ServerCommandOutcome::Message(m) => assert_eq!(m, "https://b.example/\n(Not signed in)\n"),
        _ => panic!("the servers are listed"),
    }
    match (ServerSubcommand::Login { email: "e".to_string(), password: "p".to_string() }).process(&mut list) {
        ServerCommandOutcome::StartLogin(l) => assert_eq!((l.email.as_str(), l.password.as_str()), ("e", "p")),
        _ => panic!("signing in is handed back"),
    }
}

#[test]
fn sign_in_messages() {
    colored::control::set_override(false);
    let s = Server::new(url("https://a.example/"), Some(LoginInfo::new("e".into(), "p".into())));
    assert_eq!(
        signed_in_message(&s, "e"),
        "I successfully signed you into https://a.example/\nSigned in as e\n as e"
    );
    assert_eq!(wrong_password_message("e"), "The server said that you have the wrong password for e");
    assert_eq!(Cli::whoami_message(&s), "You are on https://a.example/\nSigned in as e\n");
}

#[test]
fn the_list_is_written_back_only_after_success() {
    assert!(matches!(after_command(Ok(())), AfterCommand::Store));
    match after_command(Err("no server".to_string())) {
        AfterCommand::Fail(m) => assert_eq!(m, "no server"),
        AfterCommand::Store => panic!("a failed command is not stored"),
    }
    assert_eq!(read_failed_message("denied"), "I had a problem reading from disk: denied");
    assert_eq!(write_failed_message("full"), "I got an error when trying to write to disk: \nfull");
}
