use vstd::prelude::*;
use crate::network::server::Server;
use crate::network::server_list::{ServerList, default_index};
use crate::tui::keys::{KeyCode, KeyEvent};
use crate::tui::label::{Label, label_text};
use crate::tui::selection::{ListSelection, saturating_add, saturating_sub};
use crate::tui::size::MinSize;

verus! {

/// The picker of the server to search on, over the servers the client knew
/// when the search screen opened.
pub struct SearchServerSelector {
    servers: Vec<Server>,
    state: ListSelection,
}

/// The place picked after `code` among `n` servers: `j` the next one,
/// from the last back to the first, and `k` the one before, staying on the
/// first; other keys keep the place.
pub open spec fn picked_after(picked: usize, n: nat, code: KeyCode) -> usize {
    match code {
        KeyCode::Char('j') => (saturating_add(picked, 1) as int % n as int) as usize,
        KeyCode::Char('k') => (saturating_sub(picked, 1) as int % n as int) as usize,
        _ => picked,
    }
}

/// Law: every key leaves the pick on one of the servers.
pub proof fn lemma_pick_stays_on_a_server(picked: usize, n: nat, code: KeyCode)
    requires
        picked < n,
    ensures
        picked_after(picked, n, code) < n,
{
    let m = n as int;
    match code {
        KeyCode::Char('j') => {
            vstd::arithmetic::div_mod::lemma_mod_bound(saturating_add(picked, 1) as int, m);
        },
        KeyCode::Char('k') => {
            vstd::arithmetic::div_mod::lemma_mod_bound(saturating_sub(picked, 1) as int, m);
        },
        _ => {},
    }
}

impl SearchServerSelector {
    #[verifier::type_invariant]
    spec fn selection_in_range(self) -> bool {
        self.state.selected matches Some(i) && i < self.servers@.len()
    }

    /// The servers to pick from.
    pub closed spec fn servers_spec(&self) -> Seq<Server> {
        self.servers@
    }

    /// The place of the picked server.
    pub closed spec fn picked(&self) -> usize {
        self.state.selected->0
    }

    /// A picker over the servers of `server_list`, starting at the one in use.
    pub fn new(server_list: &ServerList) -> (r: SearchServerSelector)
        requires
            default_index(server_list.default, server_list.servers@.len()) is Some,
        ensures
            r.servers_spec().len() == server_list.servers@.len(),
            forall|i: int| 0 <= i < r.servers_spec().len() ==> #[trigger] r.servers_spec()[i]@ == server_list.servers@[i]@,
            Some(r.picked()) == server_list.default,
    {
        let mut servers: Vec<Server> = Vec::new();
        let mut i: usize = 0;
        while i < server_list.servers.len()
            invariant
                i <= server_list.servers@.len(),
                servers@.len() == i,
                forall|j: int| 0 <= j < i ==> #[trigger] servers@[j]@ == server_list.servers@[j]@,
            decreases server_list.servers@.len() - i,
        {
            servers.push(server_list.servers[i].clone());
            i = i + 1;
        }
        SearchServerSelector { servers, state: ListSelection::with_selected(server_list.default) }
    }

    /// The place of the picked server.
    pub fn selected(&self) -> (r: usize)
        ensures
            r == self.picked(),
            r < self.servers_spec().len(),
    {
        proof {
            use_type_invariant(self);
        }
        match self.state.selected {
            Some(i) => i,
            None => 0,
        }
    }

    /// The servers to pick from.
    pub fn servers(&self) -> (r: &Vec<Server>)
        ensures
            r@ == self.servers_spec(),
    {
        &self.servers
    }

    /// The picked server.
    pub fn current_server(&self) -> (r: Server)
        ensures
            r@ == self.servers_spec()[self.picked() as int]@,
    {
        let i = self.selected();
        self.servers[i].clone()
    }

    /// `j` picks the next server and `k` the one before; the place is taken
    /// modulo the number of servers, so `j` goes from the last server round
    /// to the first, while `k` stays on the first.
    pub fn handle_key_event(&mut self, key: KeyEvent)
        ensures
            final(self).servers_spec() == old(self).servers_spec(),
            final(self).picked() == picked_after(old(self).picked(), old(self).servers_spec().len(), key.code),
    {
        proof {
            use_type_invariant(&*self);
        }
        let mut state = self.state;
        match key.code {
            KeyCode::Char('j') => state.select_next(),
            KeyCode::Char('k') => state.select_previous(),
            _ => {},
        }
        let len = self.servers.len();
        proof {
            vstd::arithmetic::div_mod::lemma_small_mod(self.state.selected->0 as nat, len as nat);
        }
        let wrapped = match state.selected {
            Some(x) => Some(x % len),
            None => None,
        };
        state.select(wrapped);
        self.state = state;
    }

    /// The labels shown under the picker: `" j: next "` and `" k: prev "`.
    pub fn get_labels(&self) -> (r: Vec<String>)
        ensures
            r@.len() == 2,
            r@[0]@ == label_text(seq!['j'], seq!['n', 'e', 'x', 't']),
            r@[1]@ == label_text(seq!['k'], seq!['p', 'r', 'e', 'v']),
    {
        let next = Label::new("j", "next");
        let prev = Label::new("k", "prev");
        proof {
            reveal_strlit("j");
            reveal_strlit("next");
            reveal_strlit("k");
            reveal_strlit("prev");
        }
        assert(next@ =~= label_text(seq!['j'], seq!['n', 'e', 'x', 't']));
        assert(prev@ =~= label_text(seq!['k'], seq!['p', 'r', 'e', 'v']));
        let mut r = Vec::new();
        r.push(next);
        r.push(prev);
        r
    }

    /// The picker asks for no room of its own.
    pub fn get_min_size(&self) -> (r: MinSize)
        ensures
            r.width == 0 && r.height == 0,
    {
        MinSize::new(0, 0)
    }
}

/// Law: among `n` servers, `k` picks the server just before (staying on the
/// first) and `j` the one just after (from the last round to the first);
/// `j` after `k` comes back to the server picked before.
pub proof fn lemma_pick_moves_by_one(p: usize, n: nat)
    requires
        p < n,
        n <= usize::MAX,
    ensures
        picked_after(p, n, KeyCode::Char('k')) == if p == 0 { 0 } else { p - 1 },
        picked_after(p, n, KeyCode::Char('j')) == if p + 1 < n { p + 1 } else { 0 },
        0 < p ==> picked_after(picked_after(p, n, KeyCode::Char('k')), n, KeyCode::Char('j')) == p,
{
    let down = saturating_sub(p, 1);
    vstd::arithmetic::div_mod::lemma_small_mod(down as nat, n);
    if p + 1 < n {
        vstd::arithmetic::div_mod::lemma_small_mod((p + 1) as nat, n);
    } else {
        vstd::arithmetic::div_mod::lemma_mod_self_0(n as int);
    }
    if 0 < p {
        let q = (p - 1) as usize;
        vstd::arithmetic::div_mod::lemma_small_mod((q + 1) as nat, n);
    }
}

} // verus!
