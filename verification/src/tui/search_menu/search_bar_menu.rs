use vstd::prelude::*;
use crate::network::server::Server;
use crate::tui::keys::{KeyCode, KeyEvent};
use crate::tui::search_menu::search_bar::{SearchBar, search_bar_label, submitted, typed};
use crate::tui::search_menu::search_server_select::{SearchServerSelector, picked_after};
use crate::tui::size::MinSize;

use crate::tui::look::{PartLook, greyed_hint, greyed_with, hint_if};
verus! {

/// Which of the two parts of the search line has the keys.
#[derive(Debug, Clone, Copy, PartialEq, Eq, Structural)]
pub enum SearchBarMenuMode {
    Search,
    Server,
}

/// What a key on the search line asks for.
pub enum SearchBarMenuAction {
    Nothin,
    /// Search for `query` on `server`.
    Search { query: String, server: Server },
}

/// The search line: the query bar beside the server picker.
pub struct SearchBarMenu {
    pub search_bar: SearchBar,
    pub server_selector: SearchServerSelector,
    pub mode: SearchBarMenuMode,
}

/// Whether `new` and `r` are what `key` makes of the search line `old`:
/// Control-l moves the keys to the picker and Control-h back to the bar;
/// other keys go to the part that has them, and when the bar hands back a
/// query, the search asked for is for that query on the picked server.
pub open spec fn bar_menu_step(old: SearchBarMenu, key: KeyEvent, new: SearchBarMenu, r: SearchBarMenuAction) -> bool {
    &&& old.mode == SearchBarMenuMode::Search ==> if key.ctrl && key.code == KeyCode::Char('l') {
        new.mode == SearchBarMenuMode::Server && r is Nothin && new.search_bar == old.search_bar
            && new.server_selector == old.server_selector
    } else {
        &&& new.mode == SearchBarMenuMode::Search
        &&& new.server_selector == old.server_selector
        &&& new.search_bar.text@ == typed(old.search_bar.text@, key.code)
        &&& match submitted(old.search_bar.text@, key.code) {
            Some(q) => r matches SearchBarMenuAction::Search { query, server } && query@ == q
                && server@ == old.server_selector.servers_spec()[old.server_selector.picked() as int]@,
            None => r is Nothin,
        }
    }
    &&& old.mode == SearchBarMenuMode::Server ==> r is Nothin && new.search_bar == old.search_bar
        && if key.ctrl && key.code == KeyCode::Char('h') {
        new.mode == SearchBarMenuMode::Search && new.server_selector == old.server_selector
    } else {
        &&& new.mode == SearchBarMenuMode::Server
        &&& new.server_selector.servers_spec() == old.server_selector.servers_spec()
        &&& new.server_selector.picked() == picked_after(
            old.server_selector.picked(),
            old.server_selector.servers_spec().len(),
            key.code,
        )
    }
}

impl SearchBarMenu {
    /// The two parts, with the keys on the query bar.
    pub fn new(search_bar: SearchBar, server_selector: SearchServerSelector) -> (r: SearchBarMenu)
        ensures
            r.search_bar == search_bar,
            r.server_selector == server_selector,
            r.mode == SearchBarMenuMode::Search,
    {
        SearchBarMenu { search_bar, server_selector, mode: SearchBarMenuMode::Search }
    }

    /// Control-l moves the keys to the picker and Control-h back to the bar.
    /// Other keys go to the part that has them; when the bar hands back a
    /// query, the search asked for is for that query on the picked server.
    pub fn handle_key_event(&mut self, key: KeyEvent) -> (r: SearchBarMenuAction)
        ensures
            bar_menu_step(*old(self), key, *final(self), r),
    {
        match self.mode {
            SearchBarMenuMode::Search => {
                if key.is_ctrl_char('l') {
                    self.mode = SearchBarMenuMode::Server;
                    return SearchBarMenuAction::Nothin;
                }
                match self.search_bar.handle_key_event(key) {
                    Some(query) => {
                        return SearchBarMenuAction::Search { query, server: self.server_selector.current_server() };
                    },
                    None => {},
                }
            },
            SearchBarMenuMode::Server => {
                if key.is_ctrl_char('h') {
                    self.mode = SearchBarMenuMode::Search;
                    return SearchBarMenuAction::Nothin;
                }
                self.server_selector.handle_key_event(key);
            },
        }
        SearchBarMenuAction::Nothin
    }

    /// Leaving the search line puts the keys back on the query bar.
    pub fn deselect(&mut self)
        ensures
            final(self).search_bar == old(self).search_bar,
            final(self).server_selector == old(self).server_selector,
            final(self).mode == SearchBarMenuMode::Search,
    {
        self.mode = SearchBarMenuMode::Search;
    }

    /// Room for the bar and the picker side by side.
    pub fn get_min_size(&self) -> (r: MinSize)
        ensures
            r.width == search_bar_label().len() + 2,
            r.height == 3,
    {
        let mut sizes = Vec::new();
        sizes.push(self.search_bar.get_min_size());
        sizes.push(self.server_selector.get_min_size());
        proof {
            reveal_with_fuel(crate::tui::size::total_width, 3);
            reveal_with_fuel(crate::tui::size::max_height, 3);
            assert(sizes@.drop_last().drop_last() =~= Seq::<MinSize>::empty());
        }
        MinSize::hmerge(sizes)
    }

    /// How the bar and the picker are drawn: the part with the keys with its
    /// labels (the bar only where the search line has the keys, plain
    /// otherwise), the other in grey with the key that moves the keys to it.
    pub fn part_looks(&self, selected: bool) -> (r: (PartLook, PartLook))
        ensures
            self.mode == SearchBarMenuMode::Search ==> (if selected { r.0 is WithHelp } else { r.0 is Plain })
                && greyed_with(r.1, hint_if(selected, "ctrl-l"@)),
            self.mode == SearchBarMenuMode::Server ==> greyed_with(r.0, hint_if(selected, "ctrl-h"@))
                && r.1 is WithHelp,
    {
        match self.mode {
            SearchBarMenuMode::Search => {
                let bar = if selected { PartLook::WithHelp } else { PartLook::Plain };
                (bar, greyed_hint(selected, "ctrl-l"))
            },
            SearchBarMenuMode::Server => (greyed_hint(selected, "ctrl-h"), PartLook::WithHelp),
        }
    }
}

} // verus!
