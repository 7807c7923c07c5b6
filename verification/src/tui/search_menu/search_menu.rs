use vstd::prelude::*;
use vstd::string::StringExecFns;
use crate::network::search::SearchResult;
use crate::network::server::Server;
use crate::network::server_list::{ServerList, default_index};
use crate::posts::posts::Post;
use crate::tui::keys::{KeyCode, KeyEvent};
use crate::tui::search_menu::search_bar::SearchBar;
use crate::tui::search_menu::search_bar_menu::{SearchBarMenu, SearchBarMenuAction, SearchBarMenuMode, bar_menu_step};
use crate::tui::search_menu::search_results::{SearchResults, SearchResultsMenu, SearchResultsMenuMode, results_menu_step, shows_post, with_post};
use crate::tui::search_menu::search_server_select::SearchServerSelector;

use crate::tui::look::{PartLook, greyed_hint, greyed_with, hint_if};
verus! {

/// Which half of the search screen has the keys.
#[derive(Debug, Clone, Copy, PartialEq, Eq, Structural)]
pub enum SearchMenuMode {
    Results,
    Search,
}

/// What the search screen needs done outside it after a key.
pub enum SearchMenuRequest {
    Nothing,
    /// Search `server` for `query`, and hand the outcome to `search_done`.
    Search { query: String, server: Server },
    /// Fetch the post of this result, and hand it to `post_fetched`.
    FetchPost(SearchResult),
}

/// The search screen: the search line above the results of the last search.
pub struct SearchMenu {
    /// The results menu, or the message saying why there are no results.
    pub results: Result<SearchResultsMenu, String>,
    pub search_menu: SearchBarMenu,
    pub mode: SearchMenuMode,
}

pub open spec fn waiting_message() -> Seq<char> {
    "WAITING AND THIS SHOULD BE A SPECIAL TYPE..."@
}

pub open spec fn no_results_message() -> Seq<char> {
    "No results matching that query!"@
}

/// How a message is shown in place of the results: `"(!) There was an error: <message> (!)"`.
pub open spec fn error_banner(message: Seq<char>) -> Seq<char> {
    "(!) There was an error: "@ + message + " (!)"@
}

/// The request of the results screen as one of the search screen.
pub open spec fn fetch_request(r: SearchMenuRequest) -> Option<SearchResult> {
    match r {
        SearchMenuRequest::FetchPost(q) => Some(q),
        _ => None,
    }
}

/// The request of the search screen as an action of the search line.
pub open spec fn bar_action(r: SearchMenuRequest) -> SearchBarMenuAction {
    match r {
        SearchMenuRequest::Search { query, server } => SearchBarMenuAction::Search { query, server },
        _ => SearchBarMenuAction::Nothin,
    }
}

/// Whether `new` and `r` are what `key` makes of the search screen `old`:
/// Control-k moves the keys from the results to the search line, putting
/// the results screen back on its list, and Control-j moves them back,
/// putting the search line back on its bar. Other keys go to the half that
/// has them, as `results_menu_step` and `bar_menu_step` say, and what that
/// half asks for is handed back.
pub open spec fn search_menu_step(old: SearchMenu, key: KeyEvent, new: SearchMenu, r: SearchMenuRequest) -> bool {
    &&& old.mode == SearchMenuMode::Results ==> if key.ctrl && key.code == KeyCode::Char('k') {
        &&& r is Nothing
        &&& new.mode == SearchMenuMode::Search
        &&& new.search_menu == old.search_menu
        &&& match (old.results, new.results) {
            (Ok(a), Ok(b)) => b.mode == SearchResultsMenuMode::Results && b.search_results == a.search_results
                && b.post_widget == a.post_widget,
            (Err(a), Err(b)) => a == b,
            _ => false,
        }
    } else {
        &&& new.mode == SearchMenuMode::Results
        &&& new.search_menu == old.search_menu
        &&& match (old.results, new.results) {
            (Ok(a), Ok(b)) => results_menu_step(a, key, b, fetch_request(r)) && (r is Nothing || r is FetchPost),
            (Err(a), Err(b)) => a == b && r is Nothing,
            _ => false,
        }
    }
    &&& old.mode == SearchMenuMode::Search ==> if key.ctrl && key.code == KeyCode::Char('j') {
        &&& r is Nothing
        &&& new.mode == SearchMenuMode::Results
        &&& new.results == old.results
        &&& new.search_menu.mode == SearchBarMenuMode::Search
        &&& new.search_menu.search_bar == old.search_menu.search_bar
        &&& new.search_menu.server_selector == old.search_menu.server_selector
    } else {
        &&& new.mode == SearchMenuMode::Search
        &&& new.results == old.results
        &&& bar_menu_step(old.search_menu, key, new.search_menu, bar_action(r))
        &&& (r is Nothing || r is Search)
    }
}

impl SearchMenu {
    /// Results, where there are any, are never an empty list.
    pub open spec fn wf(&self) -> bool {
        self.results matches Ok(m) ==> m.search_results.links_spec().len() > 0
    }

    /// The screen for `query` on the servers of `server_list`, waiting for
    /// the first search: `query` on the server in use, which is handed back.
    pub fn new(query: String, server_list: &ServerList) -> (r: (SearchMenu, SearchMenuRequest))
        requires
            default_index(server_list.default, server_list.servers@.len()) is Some,
        ensures
            r.0.wf(),
            r.0.mode == SearchMenuMode::Search,
            r.0.results matches Err(m) && m@ == waiting_message(),
            r.0.search_menu.search_bar.text@ == query@,
            r.0.search_menu.mode == SearchBarMenuMode::Search,
            r.0.search_menu.server_selector.servers_spec().len() == server_list.servers@.len(),
            forall|i: int| 0 <= i < server_list.servers@.len()
                ==> #[trigger] r.0.search_menu.server_selector.servers_spec()[i]@ == server_list.servers@[i]@,
            r.0.search_menu.server_selector.picked() as int == server_list.default->0,
            r.1 matches SearchMenuRequest::Search { query: q, server } && q@ == query@
                && server@ == server_list.servers@[server_list.default->0 as int]@,
    {
        let server = server_list.servers[server_list.default.unwrap()].clone();
        let q = query.clone();
        let menu = SearchMenu {
            results: Err(String::from_str("WAITING AND THIS SHOULD BE A SPECIAL TYPE...")),
            search_menu: SearchBarMenu::new(SearchBar::new(query), SearchServerSelector::new(server_list)),
            mode: SearchMenuMode::Search,
        };
        (menu, SearchMenuRequest::Search { query: q, server })
    }

    /// Takes in what a search came back with: an error keeps its message, no
    /// results says so, and results are shown with the keys on them.
    pub fn search_done(&mut self, outcome: Result<Vec<SearchResult>, String>)
        ensures
            final(self).wf(),
            final(self).search_menu == old(self).search_menu,
            match outcome {
                Err(e) => final(self).results matches Err(m) && m@ == e@ && final(self).mode == old(self).mode,
                Ok(v) => if v@.len() == 0 {
                    final(self).results matches Err(m) && m@ == no_results_message() && final(self).mode == old(self).mode
                } else {
                    final(self).results matches Ok(m) && m.search_results.links_spec() == v@
                        && m.search_results.selection() == Some(0usize)
                        && m.search_results.cache().len() == 0 && m.post_widget is None
                        && m.mode == SearchResultsMenuMode::Results && final(self).mode == SearchMenuMode::Results
                },
            },
    {
        match outcome {
            Err(e) => {
                self.results = Err(e);
            },
            Ok(v) => {
                if v.len() == 0 {
                    self.results = Err(String::from_str("No results matching that query!"));
                } else {
                    self.results = Ok(SearchResultsMenu::new(SearchResults::new(v)));
                    self.mode = SearchMenuMode::Results;
                }
            },
        }
    }

    /// Control-k moves the keys from the results to the search line and
    /// Control-j back. Other keys go to the half that has them; a search
    /// asked for on the search line, or a post to fetch for the results, is
    /// handed back to be done.
    pub fn handle_key_event(&mut self, key: KeyEvent) -> (r: SearchMenuRequest)
        requires
            old(self).wf(),
        ensures
            final(self).wf(),
            search_menu_step(*old(self), key, *final(self), r),
    {
        match self.mode {
            SearchMenuMode::Results => {
                if key.is_ctrl_char('k') {
                    self.mode = SearchMenuMode::Search;
                    match &mut self.results {
                        Ok(m) => m.deselect(),
                        Err(_) => {},
                    }
                    return SearchMenuRequest::Nothing;
                }
                match &mut self.results {
                    Ok(m) => match m.handle_key_event(key) {
                        Some(result) => SearchMenuRequest::FetchPost(result),
                        None => SearchMenuRequest::Nothing,
                    },
                    Err(_) => SearchMenuRequest::Nothing,
                }
            },
            SearchMenuMode::Search => {
                if key.is_ctrl_char('j') {
                    self.mode = SearchMenuMode::Results;
                    self.search_menu.deselect();
                    return SearchMenuRequest::Nothing;
                }
                match self.search_menu.handle_key_event(key) {
                    SearchBarMenuAction::Search { query, server } => SearchMenuRequest::Search { query, server },
                    SearchBarMenuAction::Nothin => SearchMenuRequest::Nothing,
                }
            },
        }
    }

    /// Takes in the post fetched for `result` and shows it.
    pub fn post_fetched(&mut self, result: SearchResult, post: Post)
        requires
            old(self).wf(),
        ensures
            final(self).wf(),
            final(self).mode == old(self).mode,
            final(self).search_menu == old(self).search_menu,
            match (old(self).results, final(self).results) {
                (Ok(a), Ok(b)) => b.search_results.links_spec() == a.search_results.links_spec()
                    && b.search_results.selection() == a.search_results.selection()
                    && b.mode == SearchResultsMenuMode::Post
                    && b.search_results.cache() == with_post(a.search_results.cache(), result@, post@)
                    && shows_post(b.post_widget, b.search_results.cache()[result@]),
                (Err(a), Err(b)) => a == b,
                _ => false,
            },
    {
        match &mut self.results {
            Ok(m) => m.show_fetched_post(result, post),
            Err(_) => {},
        }
    }

    /// How the results and the search line are drawn: the results as they
    /// are where they have the keys, the search line with its labels where it
    /// has them, and the other part in grey with the key that moves the keys
    /// to it.
    pub fn part_looks(&self, selected: bool) -> (r: (PartLook, PartLook))
        ensures
            self.mode == SearchMenuMode::Results ==> r.0 is Plain && greyed_with(r.1, hint_if(selected, "ctrl+k"@)),
            self.mode == SearchMenuMode::Search ==> greyed_with(r.0, hint_if(selected, "ctrl+j"@)) && r.1 is WithHelp,
    {
        match self.mode {
            SearchMenuMode::Results => (PartLook::Plain, greyed_hint(selected, "ctrl+k")),
            SearchMenuMode::Search => (greyed_hint(selected, "ctrl+j"), PartLook::WithHelp),
        }
    }
}

/// The line shown in place of results that could not be had.
pub fn error_banner_text(message: &str) -> (r: String)
    ensures
        r@ == error_banner(message@),
{
    let mut r = String::from_str("(!) There was an error: ");
    r.append(message);
    r.append(" (!)");
    r
}

} // verus!
