use vstd::prelude::*;
use vstd::string::StringExecFns;
use crate::network::address::{ServerUrl, is_url_text, parsed_url, set_url_path, set_url_query, text_of, url_with_path, url_with_query};
use crate::network::login_info::{LoginInfo, LoginInfoView, is_login_text};
use crate::paint::{paint_yellow, is_painting, yellow_code};

verus! {

/// A Terse server: its URL, and the account used on it, if any.
pub struct Server {
    pub url: ServerUrl,
    pub login_info: Option<LoginInfo>,
}

/// A server as plain values.
pub struct ServerView {
    pub url: Seq<char>,
    pub login_info: Option<LoginInfoView>,
}

impl View for Server {
    type V = ServerView;

    open spec fn view(&self) -> ServerView {
        ServerView {
            url: self.url@,
            login_info: match self.login_info {
                Some(l) => Some(l@),
                None => None,
            },
        }
    }
}

/// The form a server is stored in: its URL as text and its account.
pub struct ServerSerializer {
    pub url: String,
    pub login_info: Option<LoginInfo>,
}

pub open spec fn not_signed_in_text() -> Seq<char> {
    seq!['(', 'N', 'o', 't', ' ', 's', 'i', 'g', 'n', 'e', 'd', ' ', 'i', 'n', ')']
}

pub open spec fn signed_in_as_text() -> Seq<char> {
    seq!['S', 'i', 'g', 'n', 'e', 'd', ' ', 'i', 'n', ' ', 'a', 's', ' ']
}

/// `"<email> on <url>"`, or `"(Not signed in) on <url>"` without an account.
pub open spec fn user_line(s: ServerView) -> Seq<char> {
    let who = match s.login_info {
        Some(l) => l.email,
        None => not_signed_in_text(),
    };
    who + seq![' ', 'o', 'n', ' '] + s.url
}

/// Whether `t` is how a server is listed: its URL (in yellow when it is the
/// selected server and colours are on) on one line, and on the next either
/// `"Signed in as "` and its account, or `"(Not signed in)"`.
pub open spec fn is_server_text(t: Seq<char>, s: ServerView, show_password: bool, selected: bool) -> bool {
    exists|u: Seq<char>, x: Seq<char>|
        #![trigger url_line(u, s, selected), account_text(x, s, show_password)]
        url_line(u, s, selected) && account_text(x, s, show_password)
            && t == u + seq!['\n'] + account_line(x, s) + seq!['\n']
}

/// Whether `u` is the URL of server `s` as listed.
pub open spec fn url_line(u: Seq<char>, s: ServerView, selected: bool) -> bool {
    if selected { is_painting(u, s.url, yellow_code()) } else { u == s.url }
}

/// Whether `x` is the account of server `s` as listed.
pub open spec fn account_text(x: Seq<char>, s: ServerView, show_password: bool) -> bool {
    match s.login_info {
        Some(l) => is_login_text(x, l.email, l.password, show_password),
        None => x == Seq::<char>::empty(),
    }
}

/// The account line of server `s`, with its account shown as `x`.
pub open spec fn account_line(x: Seq<char>, s: ServerView) -> Seq<char> {
    match s.login_info {
        Some(_) => signed_in_as_text() + x,
        None => not_signed_in_text(),
    }
}

/// `url` with its path set to `route` and then its query set to `query`.
pub open spec fn request_url(url: Seq<char>, route: Seq<char>, query: Seq<char>) -> Option<Seq<char>> {
    match url_with_path(url, route) {
        Some(u) => url_with_query(u, query),
        None => None,
    }
}

impl Server {
    /// A server at `url`, signed in with `login_info`.
    pub fn new(url: ServerUrl, login_info: Option<LoginInfo>) -> (r: Server)
        ensures
            r@.url == url@,
            r.login_info == login_info,
    {
        Server { url, login_info }
    }

    /// The server's URL, the serialization of a parsed URL.
    pub fn url(&self) -> (r: ServerUrl)
        ensures
            r@ == self@.url,
            is_url_text(r@),
    {
        let _ = self.url.as_str();
        self.url.clone()
    }

    pub fn set_login_info(&mut self, login_info: LoginInfo)
        ensures
            final(self)@.url == old(self)@.url,
            final(self).login_info == Some(login_info),
    {
        self.login_info = Some(login_info);
    }

    pub fn is_signed_in(&self) -> (r: bool)
        ensures
            r == self.login_info is Some,
    {
        self.login_info.is_some()
    }

    /// Who uses the server: `"<email> on <url>"`.
    pub fn user_string(&self) -> (r: String)
        ensures
            r@ == user_line(self@),
    {
        let mut r = match &self.login_info {
            Some(l) => l.email.clone(),
            None => String::from_str("(Not signed in)"),
        };
        r.append(" on ");
        r.append(self.url.as_str());
        proof {
            reveal_strlit("(Not signed in)");
            reveal_strlit(" on ");
        }
        assert(r@ =~= user_line(self@));
        r
    }

    /// The URL of a request to `route` with `query` on this server, or `None`
    /// where the server's URL does not parse.
    pub fn url_with_params(&self, route: &str, query: &str) -> (r: Option<String>)
        ensures
            text_of(r) == request_url(self@.url, route@, query@),
    {
        match set_url_path(self.url.as_str(), route) {
            Some(u) => set_url_query(u.as_str(), query),
            None => None,
        }
    }

    /// The server as listed: its URL, in yellow when `selected`, then its
    /// account, with the password where `show_password` holds.
    pub fn as_string(&self, show_password: bool, selected: bool) -> (r: String)
        ensures
            is_server_text(r@, self@, show_password, selected),
    {
        let mut r = if selected {
            paint_yellow(self.url.as_str())
        } else {
            String::from_str(self.url.as_str())
        };
        let ghost u = r@;
        r.append("\n");
        let ghost x: Seq<char>;
        match &self.login_info {
            Some(l) => {
                let account = l.as_string(show_password);
                r.append("Signed in as ");
                r.append(account.as_str());
                proof {
                    reveal_strlit("Signed in as ");
                    x = account@;
                    assert(self@.login_info == Some(l@));
                    assert(account_text(x, self@, show_password));
                }
            },
            None => {
                r.append("(Not signed in)");
                proof {
                    reveal_strlit("(Not signed in)");
                    x = Seq::<char>::empty();
                    assert(account_text(x, self@, show_password));
                }
            },
        }
        r.append("\n");
        proof {
            reveal_strlit("\n");
            assert(r@ =~= u + seq!['\n'] + account_line(x, self@) + seq!['\n']);
            assert(url_line(u, self@, selected));
        }
        r
    }

    /// How the server is shown by default: not selected, no password.
    pub fn to_string(&self) -> (r: String)
        ensures
            is_server_text(r@, self@, false, false),
    {
        self.as_string(false, false)
    }

    /// Whether both servers have the same URL text and the same account.
    pub fn eq(&self, other: &Server) -> (r: bool)
        ensures
            r == (self@ == other@),
    {
        if !self.url.eq(&other.url) {
            return false;
        }
        match (&self.login_info, &other.login_info) {
            (Some(a), Some(b)) => a.eq(b),
            (None, None) => true,
            _ => false,
        }
    }

    /// The stored form of the server.
    pub fn into_serializer(self) -> (r: ServerSerializer)
        ensures
            r.url@ == self@.url,
            r.login_info == self.login_info,
    {
        ServerSerializer { url: String::from_str(self.url.as_str()), login_info: self.login_info }
    }

    /// The server stored as `value`, its URL text normalised by parsing it.
    pub fn from_serializer(value: ServerSerializer) -> (r: Server)
        requires
            parsed_url(value.url@) is Some,
        ensures
            Some(r@.url) == parsed_url(value.url@),
            r.login_info == value.login_info,
    {
        let url = ServerUrl::parse(value.url.as_str()).unwrap();
        Server { url, login_info: value.login_info }
    }

    /// The server stored as `value`, or `None` where its URL does not parse.
    pub fn try_from_serializer(value: ServerSerializer) -> (r: Option<Server>)
        ensures
            parsed_url(value.url@) is None ==> r is None,
            parsed_url(value.url@) is Some ==> (r matches Some(s) && Some(s@.url) == parsed_url(value.url@)
                && s.login_info == value.login_info),
    {
        match ServerUrl::parse(value.url.as_str()) {
            Some(_) => Some(Server::from_serializer(value)),
            None => None,
        }
    }
}

/// Whether `a` and `b` are the same server shown without passwords: the
/// same URL, and the same email or both not signed in.
pub open spec fn same_but_passwords(a: ServerView, b: ServerView) -> bool {
    &&& a.url == b.url
    &&& match (a.login_info, b.login_info) {
        (Some(x), Some(y)) => x.email == y.email,
        (None, None) => true,
        _ => false,
    }
}

/// Law: the default display of a server (`to_string`, the listing neither
/// selected nor with passwords) never highlights the URL and tells nothing
/// of the password: it starts with the URL as it is, and the texts it can be
/// are the same for two servers that differ only in their passwords.
pub proof fn lemma_display_hides_password_and_highlight(t: Seq<char>, a: ServerView, b: ServerView)
    requires
        same_but_passwords(a, b),
    ensures
        is_server_text(t, a, false, false) == is_server_text(t, b, false, false),
        is_server_text(t, a, false, false) ==> t.take(a.url.len() as int) == a.url,
{
    assert forall|t: Seq<char>, a: ServerView, b: ServerView|
        #![trigger is_server_text(t, a, false, false), is_server_text(t, b, false, false)]
        same_but_passwords(a, b) && is_server_text(t, a, false, false) implies is_server_text(t, b, false, false) by {
        let (u, x) = choose|u: Seq<char>, x: Seq<char>|
            url_line(u, a, false) && account_text(x, a, false)
                && t == u + seq!['\n'] + account_line(x, a) + seq!['\n'];
        match (a.login_info, b.login_info) {
            (Some(la), Some(lb)) => {
                crate::network::login_info::lemma_hidden_password_is_not_shown(x, la.email, la.password, lb.password);
            },
            _ => {},
        }
        assert(url_line(u, b, false) && account_text(x, b, false));
        assert(account_line(x, a) == account_line(x, b));
    }
    assert(same_but_passwords(b, a));
    if is_server_text(t, a, false, false) {
        let (u, x) = choose|u: Seq<char>, x: Seq<char>|
            url_line(u, a, false) && account_text(x, a, false)
                && t == u + seq!['\n'] + account_line(x, a) + seq!['\n'];
        assert(t.take(a.url.len() as int) =~= a.url);
    }
}

/// Law: a server stored with `into_serializer` and read back with
/// `from_serializer` or `try_from_serializer` is the same server, wherever
/// the URL parser makes its own serialization again. `stored` is the URL
/// text the stored form holds and `back` the server read back from it, as
/// those functions state them; the `url` crate does not promise that
/// parsing its serialization gives it back, so that is asked of the URL.
pub proof fn lemma_stored_server_reads_back(s: ServerView, stored: Seq<char>, back: ServerView)
    requires
        parsed_url(s.url) == Some(s.url),
        stored == s.url,
        Some(back.url) == parsed_url(stored),
        back.login_info == s.login_info,
    ensures
        back == s,
{
}

impl Clone for Server {
    fn clone(&self) -> (r: Server)
        ensures
            r@ == self@,
    {
        let login_info = match &self.login_info {
            Some(l) => Some(l.clone()),
            None => None,
        };
        Server { url: self.url.clone(), login_info }
    }
}

} // verus!
