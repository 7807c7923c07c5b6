use vstd::prelude::*;
use vstd::string::StringExecFns;
use crate::network::address::ServerUrl;
use crate::network::login_info::LoginInfo;
use crate::network::server::{Server, ServerView, is_server_text};
use crate::network::server_list::{ServerList, ServerListError, default_after_removal, first_with_url, is_list_text, server_views};
use crate::text::{decimal, push_decimal};

verus! {

/// The commands that manage the known servers.
pub enum ServerSubcommand {
    /// Add the server at `url`, and use it unless `stay` holds.
    Add { url: ServerUrl, stay: bool },
    /// Forget the server at `url`.
    Remove { url: ServerUrl },
    /// Use the server at place `idx`.
    SetServer { idx: usize },
    /// Sign in to the server in use.
    Login { email: String, password: String },
    /// List the servers, with passwords where `show_passwords` holds.
    List { show_passwords: bool },
}

/// What is left to do after a server command ran on the list.
pub enum ServerCommandOutcome {
    /// Print this text.
    Message(String),
    /// The command failed.
    Failed(ServerListError),
    /// Sign in with this account to the server in use, over the network.
    StartLogin(LoginInfo),
}

pub open spec fn added_message(url: Seq<char>) -> Seq<char> {
    "I successfully added "@ + url + " to the list of servers!"@
}

pub open spec fn removed_message(url: Seq<char>) -> Seq<char> {
    "I successfully removed "@ + url + " from the list of servers"@
}

/// Whether `t` says that the server at `idx`, `s`, is now in use.
pub open spec fn is_set_message(t: Seq<char>, idx: usize, s: ServerView) -> bool {
    exists|x: Seq<char>| #![trigger is_server_text(x, s, false, false)]
        is_server_text(x, s, false, false) && t == "I successfully set the server to "@ + decimal(idx as nat) + ": "@ + x
}

/// Whether `t` says that the user is signed in to server `s` as `email`.
pub open spec fn is_signed_in_message(t: Seq<char>, s: ServerView, email: Seq<char>) -> bool {
    exists|x: Seq<char>| #![trigger is_server_text(x, s, false, false)]
        is_server_text(x, s, false, false) && t == "I successfully signed you into "@ + x + " as "@ + email
}

pub open spec fn bad_password_message(email: Seq<char>) -> Seq<char> {
    "The server said that you have the wrong password for "@ + email
}

/// Says that the user is signed in to `server` as `email`.
pub fn signed_in_message(server: &Server, email: &str) -> (r: String)
    ensures
        is_signed_in_message(r@, server@, email@),
{
    let mut r = String::from_str("I successfully signed you into ");
    let shown = server.to_string();
    r.append(shown.as_str());
    r.append(" as ");
    r.append(email);
    r
}

/// Says that the server refused the password of `email`.
pub fn wrong_password_message(email: &str) -> (r: String)
    ensures
        r@ == bad_password_message(email@),
{
    let mut r = String::from_str("The server said that you have the wrong password for ");
    r.append(email);
    r
}

impl ServerSubcommand {
    /// Runs the command on `server_list`: adding, removing, picking and
    /// listing servers are done here and answered with the text to print;
    /// signing in is handed back to be done over the network.
    pub fn process(self, server_list: &mut ServerList) -> (r: ServerCommandOutcome)
        requires
            old(server_list).servers@.len() < usize::MAX,
        ensures
            match self {
                ServerSubcommand::Add { url, stay } => r matches ServerCommandOutcome::Message(m)
                    && m@ == added_message(url@)
                    && final(server_list).servers@.drop_last() == old(server_list).servers@
                    && final(server_list).servers@.len() == old(server_list).servers@.len() + 1
                    && final(server_list).servers@.last()@.url == url@
                    && final(server_list).servers@.last().login_info is None
                    && final(server_list).default == if stay {
                        old(server_list).default
                    } else {
                        Some(old(server_list).servers@.len() as usize)
                    },
                ServerSubcommand::Remove { url } => match first_with_url(server_views(old(server_list).servers@), url@) {
                    Some(i) => r matches ServerCommandOutcome::Message(m) && m@ == removed_message(url@)
                        && final(server_list).servers@ == old(server_list).servers@.remove(i)
                        && final(server_list).default == default_after_removal(old(server_list).default, i),
                    None => r matches ServerCommandOutcome::Failed(e) && e == ServerListError::NoSuchServer
                        && final(server_list).servers@ == old(server_list).servers@
                        && final(server_list).default == old(server_list).default,
                },
                ServerSubcommand::SetServer { idx } => final(server_list).servers@ == old(server_list).servers@
                    && if idx < old(server_list).servers@.len() {
                    final(server_list).default == Some(idx) && (r matches ServerCommandOutcome::Message(m)
                        && is_set_message(m@, idx, old(server_list).servers@[idx as int]@))
                } else {
                    r matches ServerCommandOutcome::Failed(e) && e == ServerListError::NoSuchServer
                        && final(server_list).default == old(server_list).default
                },
                ServerSubcommand::Login { email, password } => r matches ServerCommandOutcome::StartLogin(l)
                    && l.email == email && l.password == password
                    && final(server_list).servers@ == old(server_list).servers@
                    && final(server_list).default == old(server_list).default,
                ServerSubcommand::List { show_passwords } => r matches ServerCommandOutcome::Message(m)
                    && is_list_text(m@, server_views(old(server_list).servers@), old(server_list).default, show_passwords)
                    && final(server_list).servers@ == old(server_list).servers@
                    && final(server_list).default == old(server_list).default,
            },
    {
        match self {
            ServerSubcommand::Add { url, stay } => {
                let mut m = String::from_str("I successfully added ");
                m.append(url.as_str());
                m.append(" to the list of servers!");
                server_list.add_server(url, !stay);
                ServerCommandOutcome::Message(m)
            },
            ServerSubcommand::Remove { url } => {
                match server_list.remove_server(url.as_str()) {
                    Ok(()) => {
                        let mut m = String::from_str("I successfully removed ");
                        m.append(url.as_str());
                        m.append(" from the list of servers");
                        ServerCommandOutcome::Message(m)
                    },
                    Err(e) => ServerCommandOutcome::Failed(e),
                }
            },
            ServerSubcommand::SetServer { idx } => {
                match server_list.set_server(idx) {
                    Ok(()) => {
                        let mut m = String::from_str("I successfully set the server to ");
                        push_decimal(&mut m, idx as u64);
                        m.append(": ");
                        let shown = server_list.servers[idx].to_string();
                        m.append(shown.as_str());
                        proof {
                            assert(is_server_text(shown@, old(server_list).servers@[idx as int]@, false, false));
                        }
                        ServerCommandOutcome::Message(m)
                    },
                    Err(e) => ServerCommandOutcome::Failed(e),
                }
            },
            ServerSubcommand::Login { email, password } => {
                ServerCommandOutcome::StartLogin(LoginInfo::new(email, password))
            },
            ServerSubcommand::List { show_passwords } => {
                ServerCommandOutcome::Message(server_list.as_string(show_passwords))
            },
        }
    }
}

} // verus!
