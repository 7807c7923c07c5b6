use vstd::prelude::*;
use crate::network::search::{SearchResult, SearchResultView};
use crate::posts::post_widget::{PostWidget, scrolled};
use crate::posts::posts::{Post, PostView};
use crate::text::line_count;
use crate::tui::keys::{KeyCode, KeyEvent};
use crate::tui::label::{Label, label_text};
use crate::tui::selection::{ListSelection, saturating_add, saturating_sub};

use crate::tui::look::{PartLook, greyed_hint, greyed_with, hint_if};
verus! {

/// The results of a search, which of them is selected, and the posts
/// already fetched for them.
pub struct SearchResults {
    links: Vec<SearchResult>,
    /// The fetched posts, each beside its result, no result twice (the type
    /// invariant). A `HashMap` is keyed here by a result, a struct of
    /// strings with a derived `Eq` and `Hash`: Verus accepts calls on such a
    /// map but cannot follow what they do to its contents, so the map that
    /// the contracts speak of (`cache`) is kept as this list of pairs.
    post_cache: Vec<(SearchResult, Post)>,
    list_state: ListSelection,
}

/// What a key did to the results.
#[derive(Debug, Clone, Copy, PartialEq, Eq, Structural)]
pub enum SearchResultsAction {
    Nothin,
    Moved,
    Selected,
}

/// The fetched posts as a map from result to post.
pub open spec fn cache_map(c: Seq<(SearchResult, Post)>) -> Map<SearchResultView, PostView>
    decreases c.len(),
{
    if c.len() == 0 {
        Map::empty()
    } else {
        cache_map(c.drop_last()).insert(c.last().0@, c.last().1@)
    }
}

/// The posts kept after `post` was fetched for `result`: the first post
/// fetched for a result is the one kept.
pub open spec fn with_post(
    cache: Map<SearchResultView, PostView>,
    result: SearchResultView,
    post: PostView,
) -> Map<SearchResultView, PostView> {
    if cache.contains_key(result) {
        cache
    } else {
        cache.insert(result, post)
    }
}

/// Law: once a post is kept for a result, it is the post of that result
/// from then on, whatever is fetched again; and keeping a post leaves the
/// posts of other results as they were.
pub proof fn lemma_first_fetch_is_kept(
    cache: Map<SearchResultView, PostView>,
    result: SearchResultView,
    post: PostView,
    again: PostView,
    other: SearchResultView,
)
    ensures
        with_post(cache, result, post).contains_key(result),
        with_post(with_post(cache, result, post), result, again) == with_post(cache, result, post),
        with_post(cache, result, post)[result] == if cache.contains_key(result) { cache[result] } else { post },
        other != result ==> (with_post(cache, result, post).contains_key(other) == cache.contains_key(other)),
        other != result && cache.contains_key(other) ==> with_post(cache, result, post)[other] == cache[other],
{
}

/// No result is cached twice.
pub open spec fn keys_unique(c: Seq<(SearchResult, Post)>) -> bool {
    forall|i: int, j: int| 0 <= i < j < c.len() ==> c[i].0@ != c[j].0@
}

proof fn lemma_cache_lookup(c: Seq<(SearchResult, Post)>, k: SearchResultView, i: int)
    requires
        keys_unique(c),
        0 <= i <= c.len(),
        forall|j: int| 0 <= j < i ==> c[j].0@ != k,
        i < c.len() ==> c[i].0@ == k,
    ensures
        i < c.len() ==> cache_map(c).contains_key(k) && cache_map(c)[k] == c[i].1@,
        i == c.len() ==> !cache_map(c).contains_key(k),
    decreases c.len(),
{
    if c.len() > 0 {
        let d = c.drop_last();
        if i == c.len() - 1 {
            lemma_cache_lookup(d, k, i);
        } else if i < c.len() - 1 {
            assert(c.last().0@ != k);
            lemma_cache_lookup(d, k, i);
        } else {
            lemma_cache_lookup(d, k, i - 1);
        }
    }
}

/// The place of the selected result: the selection, or the first when there
/// is none, held within the list.
pub open spec fn selected_index(selected: Option<usize>, len: nat) -> int {
    let s = match selected {
        Some(i) => i as int,
        None => 0,
    };
    if s < len - 1 { s } else { len - 1 }
}

/// The widest title of `links` in UTF-8 bytes, or 10 when there is none.
pub open spec fn titles_width(links: Seq<SearchResult>) -> usize
    decreases links.len(),
{
    if links.len() == 0 {
        10
    } else {
        let w = vstd::utf8::encode_utf8(links.last().header.title@).len() as usize;
        if links.len() == 1 {
            w
        } else {
            let rest = titles_width(links.drop_last());
            if rest < w { w } else { rest }
        }
    }
}

/// The selection after `code`: `j` selects the next result (the first when
/// none is selected) and `k` the one before (`usize::MAX`, which drawing
/// turns into the last, when none is selected).
pub open spec fn moved_selection(selected: Option<usize>, code: KeyCode) -> Option<usize> {
    match code {
        KeyCode::Char('j') => Some(
            match selected {
                Some(i) => saturating_add(i, 1),
                None => 0,
            },
        ),
        KeyCode::Char('k') => Some(
            match selected {
                Some(i) => saturating_sub(i, 1),
                None => usize::MAX,
            },
        ),
        _ => selected,
    }
}

/// What `code` does to the results: `j` and `k` move, Enter chooses.
pub open spec fn results_action(code: KeyCode) -> SearchResultsAction {
    match code {
        KeyCode::Char('j') => SearchResultsAction::Moved,
        KeyCode::Char('k') => SearchResultsAction::Moved,
        KeyCode::Enter => SearchResultsAction::Selected,
        _ => SearchResultsAction::Nothin,
    }
}

impl SearchResults {
    #[verifier::type_invariant]
    spec fn cache_keys_unique(self) -> bool {
        keys_unique(self.post_cache@)
    }

    /// The results, in order.
    pub closed spec fn links_spec(&self) -> Seq<SearchResult> {
        self.links@
    }

    /// The posts fetched so far, by result.
    pub closed spec fn cache(&self) -> Map<SearchResultView, PostView> {
        cache_map(self.post_cache@)
    }

    /// The selection.
    pub closed spec fn selection(&self) -> Option<usize> {
        self.list_state.selected
    }

    /// The result at the selected place.
    pub open spec fn selected_result(&self) -> SearchResult {
        self.links_spec()[selected_index(self.selection(), self.links_spec().len())]
    }

    /// `links` with the first selected and nothing fetched yet.
    pub fn new(links: Vec<SearchResult>) -> (r: SearchResults)
        ensures
            r.links_spec() == links@,
            r.selection() == Some(0usize),
            r.cache() == Map::<SearchResultView, PostView>::empty(),
    {
        let mut list_state = ListSelection::new();
        list_state.select_first();
        SearchResults { links, post_cache: Vec::new(), list_state }
    }

    /// The results, in order.
    pub fn links(&self) -> (r: &Vec<SearchResult>)
        ensures
            r@ == self.links_spec(),
    {
        &self.links
    }

    /// The selection.
    pub fn selected(&self) -> (r: Option<usize>)
        ensures
            r == self.selection(),
    {
        self.list_state.selected
    }

    /// What drawing the list does to the selection: it is held within the results.
    pub fn fit_selection(&mut self)
        ensures
            final(self).links_spec() == old(self).links_spec(),
            final(self).cache() == old(self).cache(),
            old(self).links_spec().len() == 0 ==> final(self).selection() is None,
            old(self).links_spec().len() > 0 ==> final(self).selection() == match old(self).selection() {
                Some(i) => Some(if i >= old(self).links_spec().len() { (old(self).links_spec().len() - 1) as usize } else { i }),
                None => None,
            },
    {
        proof {
            use_type_invariant(&*self);
        }
        let len = self.links.len();
        let mut state = self.list_state;
        state.fit_to(len);
        self.list_state = state;
    }

    fn selected_position(&self) -> (r: usize)
        requires
            self.links_spec().len() > 0,
        ensures
            r == selected_index(self.selection(), self.links_spec().len()),
    {
        let s = match self.list_state.selected {
            Some(i) => i,
            None => 0,
        };
        let last = self.links.len() - 1;
        if s < last { s } else { last }
    }

    /// Where the post of `result` is in the cache, if it has been fetched.
    fn cache_position(&self, result: &SearchResult) -> (r: Option<usize>)
        ensures
            match r {
                Some(i) => i < self.post_cache@.len() && self.post_cache@[i as int].0@ == result@
                    && self.cache().contains_key(result@)
                    && self.cache()[result@] == self.post_cache@[i as int].1@,
                None => !self.cache().contains_key(result@),
            },
    {
        proof {
            use_type_invariant(self);
        }
        let mut i: usize = 0;
        while i < self.post_cache.len()
            invariant
                keys_unique(self.post_cache@),
                i <= self.post_cache@.len(),
                forall|j: int| 0 <= j < i ==> self.post_cache@[j].0@ != result@,
            decreases self.post_cache@.len() - i,
        {
            if self.post_cache[i].0.eq(result) {
                proof {
                    lemma_cache_lookup(self.post_cache@, result@, i as int);
                }
                return Some(i);
            }
            i = i + 1;
        }
        proof {
            lemma_cache_lookup(self.post_cache@, result@, i as int);
        }
        None
    }

    /// Whether the post of the selected result has been fetched.
    pub fn has_selected_article(&self) -> (r: bool)
        requires
            self.links_spec().len() > 0,
        ensures
            r == self.cache().contains_key(self.selected_result()@),
    {
        let i = self.selected_position();
        self.cache_position(&self.links[i]).is_some()
    }

    /// The post of the selected result where it has been fetched; otherwise
    /// the result whose post is to be fetched and handed to `store_post`.
    pub fn get_selected_article(&self) -> (r: Result<Post, SearchResult>)
        requires
            self.links_spec().len() > 0,
        ensures
            match r {
                Ok(p) => self.cache().contains_key(self.selected_result()@)
                    && p@ == self.cache()[self.selected_result()@],
                Err(q) => !self.cache().contains_key(self.selected_result()@)
                    && q@ == self.selected_result()@,
            },
    {
        let i = self.selected_position();
        match self.cache_position(&self.links[i]) {
            Some(c) => Ok(self.post_cache[c].1.clone()),
            None => Err(self.links[i].clone()),
        }
    }

    /// Keeps `post` as the post of `result`, where none is kept yet, and
    /// hands back the post kept for `result`.
    pub fn store_post(&mut self, result: SearchResult, post: Post) -> (r: Post)
        ensures
            final(self).links_spec() == old(self).links_spec(),
            final(self).selection() == old(self).selection(),
            final(self).cache() == with_post(old(self).cache(), result@, post@),
            r@ == final(self).cache()[result@],
    {
        match self.cache_position(&result) {
            Some(c) => self.post_cache[c].1.clone(),
            None => {
                let kept = post.clone();
                let ghost old_cache = self.post_cache@;
                proof {
                    use_type_invariant(&*self);
                    assert forall|j: int| 0 <= j < old_cache.len() implies old_cache[j].0@ != result@ by {
                        if old_cache[j].0@ == result@ {
                            lemma_cache_lookup(old_cache, result@, first_key(old_cache, result@, j));
                        }
                    }
                }
                let mut cache = Vec::new();
                std::mem::swap(&mut cache, &mut self.post_cache);
                cache.push((result, post));
                proof {
                    assert(cache@.drop_last() =~= old_cache);
                }
                self.post_cache = cache;
                kept
            },
        }
    }

    /// The width of the widest title, in bytes; 10 when there are no results.
    pub fn get_width(&self) -> (r: usize)
        ensures
            r == titles_width(self.links_spec()),
    {
        let mut w: usize = 10;
        let mut i: usize = 0;
        while i < self.links.len()
            invariant
                i <= self.links@.len(),
                w == titles_width(self.links@.take(i as int)),
            decreases self.links@.len() - i,
        {
            proof {
                assert(self.links@.take(i + 1).drop_last() =~= self.links@.take(i as int));
            }
            let len = self.links[i].header.title.as_str().len();
            if i == 0 || w < len {
                w = len;
            }
            i = i + 1;
        }
        proof {
            assert(self.links@.take(self.links@.len() as int) =~= self.links@);
        }
        w
    }

    /// `j` selects the next result and `k` the one before, Enter chooses the
    /// selected one; other keys do nothing.
    pub fn handle_key_event(&mut self, key: KeyEvent) -> (r: SearchResultsAction)
        ensures
            final(self).links_spec() == old(self).links_spec(),
            final(self).cache() == old(self).cache(),
            final(self).selection() == moved_selection(old(self).selection(), key.code),
            r == results_action(key.code),
    {
        proof {
            use_type_invariant(&*self);
        }
        match key.code {
            KeyCode::Char('j') => {
                let mut state = self.list_state;
                state.select_next();
                self.list_state = state;
                SearchResultsAction::Moved
            },
            KeyCode::Char('k') => {
                let mut state = self.list_state;
                state.select_previous();
                self.list_state = state;
                SearchResultsAction::Moved
            },
            KeyCode::Enter => SearchResultsAction::Selected,
            _ => SearchResultsAction::Nothin,
        }
    }

    /// The labels shown under the results.
    pub fn get_labels(&self) -> (r: Vec<String>)
        ensures
            r@.len() == 3,
            r@[0]@ == label_text(seq!['j'], seq!['d', 'o', 'w', 'n']),
            r@[1]@ == label_text(seq!['k'], seq!['u', 'p']),
            r@[2]@ == label_text(seq!['e', 'n', 't', 'e', 'r'], seq!['s', 'e', 'l', 'e', 'c', 't']),
    {
        let down = Label::new("j", "down");
        let up = Label::new("k", "up");
        let select = Label::new("enter", "select");
        proof {
            reveal_strlit("j");
            reveal_strlit("down");
            reveal_strlit("k");
            reveal_strlit("up");
            reveal_strlit("enter");
            reveal_strlit("select");
        }
        assert(down@ =~= label_text(seq!['j'], seq!['d', 'o', 'w', 'n']));
        assert(up@ =~= label_text(seq!['k'], seq!['u', 'p']));
        assert(select@ =~= label_text(seq!['e', 'n', 't', 'e', 'r'], seq!['s', 'e', 'l', 'e', 'c', 't']));
        let mut r = Vec::new();
        r.push(down);
        r.push(up);
        r.push(select);
        r
    }
}

/// The first place in `c` whose key is `k`, given that place `j` has it.
spec fn first_key(c: Seq<(SearchResult, Post)>, k: SearchResultView, j: int) -> int {
    choose|i: int| 0 <= i <= j && c[i].0@ == k && forall|m: int| 0 <= m < i ==> c[m].0@ != k
}

} // verus!

verus! {

/// Which half of the results screen has the keys.
#[derive(Debug, Clone, Copy, PartialEq, Eq, Structural)]
pub enum SearchResultsMenuMode {
    Results,
    Post,
}

/// The list of results beside the post of the selected one.
pub struct SearchResultsMenu {
    pub search_results: SearchResults,
    pub post_widget: Option<PostWidget>,
    pub mode: SearchResultsMenuMode,
}

/// Whether `w` shows `post` scrolled to its top.
pub open spec fn shows_post(w: Option<PostWidget>, post: PostView) -> bool {
    match w {
        Some(w) => w.post@ == post && w.height == line_count(post.content) && w.scroll_state.position == 0
            && w.scroll_state.content_length == w.height,
        None => false,
    }
}

/// Whether `new` and `r` are what `key` makes of the results screen `old`:
/// in the list, moving shows the post of the newly selected result where it
/// has been fetched (and nothing otherwise), and Enter shows the selected
/// post and hands the keys to it, or, where that post has not been fetched
/// yet, asks for it by its result. On the post, `b` goes back to the list
/// and other keys scroll the post.
pub open spec fn results_menu_step(
    old: SearchResultsMenu,
    key: KeyEvent,
    new: SearchResultsMenu,
    r: Option<SearchResult>,
) -> bool {
    &&& new.search_results.links_spec() == old.search_results.links_spec()
    &&& new.search_results.cache() == old.search_results.cache()
    &&& old.mode == SearchResultsMenuMode::Post ==> {
        &&& r is None
        &&& new.search_results == old.search_results
        &&& if key.code == KeyCode::Char('b') {
            new.mode == SearchResultsMenuMode::Results && new.post_widget == old.post_widget
        } else {
            new.mode == SearchResultsMenuMode::Post && match old.post_widget {
                Some(w) => new.post_widget matches Some(v) && v.post == w.post && v.height == w.height
                    && v.scroll_state == scrolled(w.scroll_state, key.code),
                None => new.post_widget is None,
            }
        }
    }
    &&& old.mode == SearchResultsMenuMode::Results ==> {
        let action = results_action(key.code);
        let sel = new.search_results.selected_result()@;
        let cached = new.search_results.cache().contains_key(sel);
        &&& new.search_results.selection() == moved_selection(old.search_results.selection(), key.code)
        &&& action == SearchResultsAction::Moved ==> r is None && new.mode == SearchResultsMenuMode::Results
            && if cached {
            shows_post(new.post_widget, new.search_results.cache()[sel])
        } else {
            new.post_widget is None
        }
        &&& action == SearchResultsAction::Selected ==> if cached {
            r is None && new.mode == SearchResultsMenuMode::Post && shows_post(new.post_widget, new.search_results.cache()[sel])
        } else {
            r matches Some(q) && q@ == sel && new.mode == SearchResultsMenuMode::Results
                && new.post_widget == old.post_widget
        }
        &&& action == SearchResultsAction::Nothin ==> r is None && new.mode == SearchResultsMenuMode::Results
            && new.post_widget == old.post_widget
    }
}

impl SearchResultsMenu {
    pub fn new(search_results: SearchResults) -> (r: SearchResultsMenu)
        ensures
            r.search_results == search_results,
            r.post_widget is None,
            r.mode == SearchResultsMenuMode::Results,
    {
        SearchResultsMenu { search_results, post_widget: None, mode: SearchResultsMenuMode::Results }
    }

    /// In the list, moving shows the post of the newly selected result where
    /// it has been fetched (and nothing otherwise), and Enter shows the
    /// selected post and hands the keys to it; a post not fetched yet is
    /// asked for by handing back its result, to be given to
    /// `show_fetched_post`. On the post, `b` goes back to the list and other
    /// keys scroll the post.
    pub fn handle_key_event(&mut self, key: KeyEvent) -> (r: Option<SearchResult>)
        requires
            old(self).mode == SearchResultsMenuMode::Results && results_action(key.code) != SearchResultsAction::Nothin
                ==> old(self).search_results.links_spec().len() > 0,
        ensures
            results_menu_step(*old(self), key, *final(self), r),
    {
        match self.mode {
            SearchResultsMenuMode::Results => {
                let action = self.search_results.handle_key_event(key);
                match action {
                    SearchResultsAction::Moved => {
                        if self.search_results.has_selected_article() {
                            match self.search_results.get_selected_article() {
                                Ok(post) => {
                                    self.post_widget = Some(PostWidget::new(post));
                                },
                                Err(_) => {},
                            }
                        } else {
                            self.post_widget = None;
                        }
                        None
                    },
                    SearchResultsAction::Selected => {
                        match self.search_results.get_selected_article() {
                            Ok(post) => {
                                self.post_widget = Some(PostWidget::new(post));
                                self.mode = SearchResultsMenuMode::Post;
                                None
                            },
                            Err(result) => Some(result),
                        }
                    },
                    SearchResultsAction::Nothin => None,
                }
            },
            SearchResultsMenuMode::Post => {
                match key.code {
                    KeyCode::Char('b') => {
                        self.mode = SearchResultsMenuMode::Results;
                    },
                    _ => {
                        match &mut self.post_widget {
                            Some(w) => w.handle_key_event(key),
                            None => {},
                        }
                    },
                }
                None
            },
        }
    }

    /// Keeps the post fetched for `result`, shows it, and hands the keys to it.
    pub fn show_fetched_post(&mut self, result: SearchResult, post: Post)
        ensures
            final(self).search_results.links_spec() == old(self).search_results.links_spec(),
            final(self).search_results.selection() == old(self).search_results.selection(),
            final(self).search_results.cache() == with_post(old(self).search_results.cache(), result@, post@),
            shows_post(final(self).post_widget, final(self).search_results.cache()[result@]),
            final(self).mode == SearchResultsMenuMode::Post,
    {
        let kept = self.search_results.store_post(result, post);
        self.post_widget = Some(PostWidget::new(kept));
        self.mode = SearchResultsMenuMode::Post;
    }

    /// The width of the column of results: the widest title and eight cells
    /// more, but at least 35.
    pub fn list_width(&self) -> (r: u16)
        requires
            (titles_width(self.search_results.links_spec()) as u16) + 8 <= u16::MAX,
        ensures
            r == if (titles_width(self.search_results.links_spec()) as u16) + 8 < 35 {
                35
            } else {
                (titles_width(self.search_results.links_spec()) as u16) + 8
            },
    {
        let w = (self.search_results.get_width() as u16) + 8;
        if w < 35 { 35 } else { w }
    }

    /// Leaving the results screen puts the keys back on the list.
    pub fn deselect(&mut self)
        ensures
            final(self).search_results == old(self).search_results,
            final(self).post_widget == old(self).post_widget,
            final(self).mode == SearchResultsMenuMode::Results,
    {
        self.mode = SearchResultsMenuMode::Results;
    }

    /// How the list and the post are drawn: the part with the keys with its
    /// labels, the other in grey; the list shows `b`, the key back to it,
    /// where the screen has the keys, and the post shows no key.
    pub fn part_looks(&self, selected: bool) -> (r: (PartLook, PartLook))
        ensures
            self.mode == SearchResultsMenuMode::Results ==> r.0 is WithHelp && greyed_with(r.1, Seq::empty()),
            self.mode == SearchResultsMenuMode::Post ==> greyed_with(r.0, hint_if(selected, "b"@)) && r.1 is WithHelp,
    {
        match self.mode {
            SearchResultsMenuMode::Results => (PartLook::WithHelp, greyed_hint(false, "")),
            SearchResultsMenuMode::Post => (greyed_hint(selected, "b"), PartLook::WithHelp),
        }
    }
}

/// Law: `k` selects the result just above (staying on the first) and `j`
/// the one just below; `j` after `k` from below the first comes back to the
/// same result. With nothing selected, `j` selects the first.
pub proof fn lemma_selection_moves_by_one(i: usize)
    ensures
        moved_selection(Some(i), KeyCode::Char('k')) == Some(if i == 0 { 0usize } else { (i - 1) as usize }),
        i < usize::MAX ==> moved_selection(Some(i), KeyCode::Char('j')) == Some((i + 1) as usize),
        0 < i ==> moved_selection(moved_selection(Some(i), KeyCode::Char('k')), KeyCode::Char('j')) == Some(i),
        moved_selection(None, KeyCode::Char('j')) == Some(0usize),
{
}

} // verus!
