use vstd::prelude::*;
use vstd::string::StringExecFns;
use crate::network::address::ServerUrl;
use crate::network::login_info::LoginInfo;
use crate::network::server::{Server, ServerView, is_server_text};

verus! {

/// The servers the client knows, and which of them is in use.
pub struct ServerList {
    pub servers: Vec<Server>,
    pub default: Option<usize>,
}

/// Why the server list could not do what was asked.
#[derive(Debug, Clone, Copy, PartialEq, Eq, Structural)]
pub enum ServerListError {
    /// No server is in use, or the one in use is gone.
    NoDefaultServer,
    /// No server at that place, or with that URL.
    NoSuchServer,
}

/// The servers as plain values.
pub open spec fn server_views(servers: Seq<Server>) -> Seq<ServerView> {
    servers.map_values(|s: Server| s@)
}

/// `parts` one after the other.
pub open spec fn concat_all(parts: Seq<Seq<char>>) -> Seq<char>
    decreases parts.len(),
{
    if parts.len() == 0 {
        Seq::empty()
    } else {
        concat_all(parts.drop_last()) + parts.last()
    }
}

/// Whether `t` lists `servers` one after the other, the one at `default` as selected.
pub open spec fn is_list_text(t: Seq<char>, servers: Seq<ServerView>, default: Option<usize>, show_passwords: bool) -> bool {
    exists|parts: Seq<Seq<char>>|
        #![trigger concat_all(parts)]
        parts.len() == servers.len() && t == concat_all(parts) && forall|i: int|
            #![trigger parts[i]]
            0 <= i < parts.len() ==> is_server_text(
                parts[i],
                servers[i],
                show_passwords,
                default == Some(i as usize),
            )
}

/// The index of the server in use, where there is one.
pub open spec fn default_index(default: Option<usize>, len: nat) -> Option<usize> {
    match default {
        Some(i) => if i < len { Some(i) } else { None },
        None => None,
    }
}

impl ServerListError {
    /// What to tell the user.
    pub fn message(&self) -> (r: &'static str)
        ensures
            r@ == match self {
                ServerListError::NoDefaultServer => "There is no current server"@,
                ServerListError::NoSuchServer => "There is no such server"@,
            },
    {
        match self {
            ServerListError::NoDefaultServer => "There is no current server",
            ServerListError::NoSuchServer => "There is no such server",
        }
    }
}

impl ServerList {
    /// No servers, none in use.
    pub fn new() -> (r: ServerList)
        ensures
            r.servers@.len() == 0,
            r.default is None,
    {
        ServerList { servers: Vec::new(), default: None }
    }

    /// The server at `idx`, if there is one.
    pub fn get_server(&self, idx: usize) -> (r: Option<&Server>)
        ensures
            idx < self.servers@.len() ==> r == Some(&self.servers@[idx as int]),
            idx >= self.servers@.len() ==> r is None,
    {
        if idx < self.servers.len() {
            Some(&self.servers[idx])
        } else {
            None
        }
    }

    /// The server in use.
    pub fn get_default(&self) -> (r: Result<&Server, ServerListError>)
        ensures
            match default_index(self.default, self.servers@.len()) {
                Some(i) => r == Ok::<&Server, ServerListError>(&self.servers@[i as int]),
                None => r == Err::<&Server, ServerListError>(ServerListError::NoDefaultServer),
            },
    {
        match self.default {
            Some(i) => {
                if i < self.servers.len() {
                    Ok(&self.servers[i])
                } else {
                    Err(ServerListError::NoDefaultServer)
                }
            },
            None => Err(ServerListError::NoDefaultServer),
        }
    }

    /// Signs the server in use in with `login_info`.
    pub fn set_default_login_info(&mut self, login_info: LoginInfo) -> (r: Result<(), ServerListError>)
        ensures
            final(self).default == old(self).default,
            match default_index(old(self).default, old(self).servers@.len()) {
                Some(i) => r is Ok && final(self).servers@.len() == old(self).servers@.len()
                    && (forall|j: int| 0 <= j < old(self).servers@.len() && j != i
                        ==> final(self).servers@[j] == old(self).servers@[j])
                    && final(self).servers@[i as int]@.url == old(self).servers@[i as int]@.url
                    && final(self).servers@[i as int].login_info == Some(login_info),
                None => r == Err::<(), ServerListError>(ServerListError::NoDefaultServer)
                    && final(self).servers@ == old(self).servers@,
            },
    {
        match self.default {
            Some(i) => {
                if i < self.servers.len() {
                    let mut server = self.servers.remove(i);
                    server.set_login_info(login_info);
                    self.servers.insert(i, server);
                    assert(forall|j: int| 0 <= j < old(self).servers@.len() && j != i
                        ==> self.servers@[j] == old(self).servers@[j]);
                    Ok(())
                } else {
                    Err(ServerListError::NoDefaultServer)
                }
            },
            None => Err(ServerListError::NoDefaultServer),
        }
    }

    /// Puts the server at `idx` in use.
    pub fn set_server(&mut self, idx: usize) -> (r: Result<(), ServerListError>)
        ensures
            final(self).servers@ == old(self).servers@,
            idx < old(self).servers@.len() ==> r is Ok && final(self).default == Some(idx),
            idx >= old(self).servers@.len() ==> r == Err::<(), ServerListError>(ServerListError::NoSuchServer)
                && final(self).default == old(self).default,
    {
        if idx < self.servers.len() {
            self.default = Some(idx);
            Ok(())
        } else {
            Err(ServerListError::NoSuchServer)
        }
    }

    /// Adds the server at `url`, not signed in, and puts it in use where
    /// `make_default` holds.
    pub fn add_server(&mut self, url: ServerUrl, make_default: bool)
        requires
            old(self).servers@.len() < usize::MAX,
        ensures
            final(self).servers@.len() == old(self).servers@.len() + 1,
            final(self).servers@.drop_last() == old(self).servers@,
            final(self).servers@.last()@.url == url@,
            final(self).servers@.last().login_info is None,
            server_views(final(self).servers@) == server_views(old(self).servers@).push(new_server(url@)),
            final(self).default == if make_default {
                Some(old(self).servers@.len() as usize)
            } else {
                old(self).default
            },
    {
        let server = Server::new(url, None);
        self.servers.push(server);
        if make_default {
            self.default = Some(self.servers.len() - 1);
        }
        assert(self.servers@.drop_last() =~= old(self).servers@);
        assert(server_views(self.servers@) =~= server_views(old(self).servers@).push(new_server(url@)));
    }

    /// Removes the first server whose URL text is `url`. The server in use
    /// stays in use; when it is the one removed, none is.
    pub fn remove_server(&mut self, url: &str) -> (r: Result<(), ServerListError>)
        ensures
            match first_with_url(server_views(old(self).servers@), url@) {
                Some(i) => r is Ok && final(self).servers@ == old(self).servers@.remove(i)
                    && server_views(final(self).servers@) == server_views(old(self).servers@).remove(i)
                    && final(self).default == default_after_removal(old(self).default, i),
                None => r == Err::<(), ServerListError>(ServerListError::NoSuchServer)
                    && final(self).servers@ == old(self).servers@
                    && final(self).default == old(self).default,
            },
    {
        let mut i: usize = 0;
        while i < self.servers.len()
            invariant
                i <= self.servers@.len(),
                self.servers@ == old(self).servers@,
                self.default == old(self).default,
                forall|j: int| 0 <= j < i ==> self.servers@[j]@.url != url@,
            decreases self.servers@.len() - i,
        {
            if self.servers[i].url.has_text(url) {
                proof {
                    lemma_first_with_url(server_views(old(self).servers@), url@, i as int);
                }
                let _ = self.servers.remove(i);
                assert(server_views(self.servers@) =~= server_views(old(self).servers@).remove(i as int));
                self.default = match self.default {
                    Some(d) => if d == i { None } else if d > i { Some(d - 1) } else { Some(d) },
                    None => None,
                };
                return Ok(());
            }
            i = i + 1;
        }
        proof {
            lemma_first_with_url(server_views(old(self).servers@), url@, i as int);
        }
        Err(ServerListError::NoSuchServer)
    }

    /// Every server as listed, the one in use selected, with passwords where
    /// `show_passwords` holds.
    pub fn as_string(&self, show_passwords: bool) -> (r: String)
        ensures
            is_list_text(r@, server_views(self.servers@), self.default, show_passwords),
    {
        let mut r = String::new();
        let ghost mut parts: Seq<Seq<char>> = Seq::empty();
        let mut i: usize = 0;
        while i < self.servers.len()
            invariant
                i <= self.servers@.len(),
                parts.len() == i,
                r@ == concat_all(parts),
                forall|j: int| #![trigger parts[j]] 0 <= j < i ==> is_server_text(
                    parts[j],
                    self.servers@[j]@,
                    show_passwords,
                    self.default == Some(j as usize),
                ),
            decreases self.servers@.len() - i,
        {
            let selected = match self.default {
                Some(d) => d == i,
                None => false,
            };
            let text = self.servers[i].as_string(show_passwords, selected);
            r.append(text.as_str());
            proof {
                assert((parts.push(text@)).drop_last() =~= parts);
                parts = parts.push(text@);
            }
            i = i + 1;
        }
        proof {
            assert(server_views(self.servers@).len() == parts.len());
            assert forall|j: int| #![trigger parts[j]] 0 <= j < parts.len() implies is_server_text(
                parts[j],
                server_views(self.servers@)[j],
                show_passwords,
                self.default == Some(j as usize),
            ) by {
                assert(server_views(self.servers@)[j] == self.servers@[j]@);
            }
        }
        r
    }
}

/// The place of the first server whose URL text is `url`.
pub open spec fn first_with_url(servers: Seq<ServerView>, url: Seq<char>) -> Option<int> {
    if exists|i: int| 0 <= i < servers.len() && servers[i].url == url {
        Some(choose|i: int| 0 <= i < servers.len() && servers[i].url == url
            && forall|j: int| 0 <= j < i ==> servers[j].url != url)
    } else {
        None
    }
}

/// The server in use after the server at `i` is removed: the same server,
/// at its new place, or none when it was the one removed.
pub open spec fn default_after_removal(default: Option<usize>, i: int) -> Option<usize> {
    match default {
        Some(d) => if d == i { None } else if d > i { Some((d - 1) as usize) } else { Some(d) },
        None => None,
    }
}

/// The server that `add_server` adds for `url`.
pub open spec fn new_server(url: Seq<char>) -> ServerView {
    ServerView { url, login_info: None }
}

proof fn lemma_first_with_url(servers: Seq<ServerView>, url: Seq<char>, i: int)
    requires
        0 <= i <= servers.len(),
        forall|j: int| 0 <= j < i ==> servers[j].url != url,
        i < servers.len() ==> servers[i].url == url,
    ensures
        i < servers.len() ==> first_with_url(servers, url) == Some(i),
        i == servers.len() ==> first_with_url(servers, url) is None,
{
    if i < servers.len() {
        assert(0 <= i < servers.len() && servers[i].url == url);
        let k = choose|k: int| 0 <= k < servers.len() && servers[k].url == url
            && forall|j: int| 0 <= j < k ==> servers[j].url != url;
        assert(0 <= i < servers.len() && servers[i].url == url
            && forall|j: int| 0 <= j < i ==> servers[j].url != url);
        if k < i {
        } else if k > i {
            assert(servers[i].url != url);
        }
    }
}

/// Law: adding a server at a URL that no known server has, without putting
/// it in use, and then removing the server at that URL gives back the list
/// as it was, with the same server in use (or none).
pub proof fn lemma_remove_undoes_add(servers: Seq<ServerView>, default: Option<usize>, url: Seq<char>)
    requires
        first_with_url(servers, url) is None,
        default matches Some(d) ==> d < servers.len(),
    ensures
        first_with_url(servers.push(new_server(url)), url) == Some(servers.len() as int),
        servers.push(new_server(url)).remove(servers.len() as int) == servers,
        default_after_removal(default, servers.len() as int) == default,
{
    let added = servers.push(new_server(url));
    assert forall|j: int| 0 <= j < servers.len() implies added[j].url != url by {
        if added[j].url == url {
            assert(servers[j].url == url);
        }
    }
    lemma_first_with_url(added, url, servers.len() as int);
    assert(added.remove(servers.len() as int) =~= servers);
}

/// Law: removing a server other than the one in use keeps the same server
/// in use, at its place in the shorter list; removing the one in use leaves
/// none in use, and with none in use none stays.
pub proof fn lemma_removal_keeps_server_in_use(servers: Seq<ServerView>, d: usize, i: int)
    requires
        0 <= i < servers.len(),
        d < servers.len(),
    ensures
        d != i ==> (default_after_removal(Some(d), i) matches Some(e) && e < servers.len() - 1
            && servers.remove(i)[e as int] == servers[d as int]),
        d == i ==> default_after_removal(Some(d), i) is None,
        default_after_removal(None, i) is None,
{
}

} // verus!
