use vstd::prelude::*;
use crate::posts::posts::Post;
use crate::text::{count_lines, line_count};
use crate::tui::keys::{KeyCode, KeyEvent};
use crate::tui::label::{Label, label_text};
use crate::tui::selection::{ScrollState, min_usize, saturating_add, saturating_sub, sat_sub};

verus! {

/// A post shown with a scrollbar.
pub struct PostWidget {
    pub post: Post,
    /// How many lines the post's text has.
    pub height: usize,
    pub scroll_state: ScrollState,
}

/// The scrollbar after `code`: `j` one line down (but not past the last
/// position), `k` one line up (but not before the first), other keys nothing.
pub open spec fn scrolled(s: ScrollState, code: KeyCode) -> ScrollState {
    match code {
        KeyCode::Char('j') => ScrollState {
            content_length: s.content_length,
            position: min_usize(saturating_add(s.position, 1), saturating_sub(s.content_length, 1)),
        },
        KeyCode::Char('k') => ScrollState { content_length: s.content_length, position: saturating_sub(s.position, 1) },
        _ => s,
    }
}

impl PostWidget {
    /// The post scrolled to its top, with a scrollbar as long as the text.
    pub fn new(post: Post) -> (r: PostWidget)
        ensures
            r.post == post,
            r.height == line_count(post.content@),
            r.scroll_state == (ScrollState { content_length: r.height, position: 0 }),
    {
        let height = count_lines(post.content.as_str());
        PostWidget { post, height, scroll_state: ScrollState::new(height) }
    }

    /// `j` scrolls down a line and `k` up a line; other keys do nothing.
    pub fn handle_key_event(&mut self, key: KeyEvent)
        ensures
            final(self).post == old(self).post,
            final(self).height == old(self).height,
            final(self).scroll_state == scrolled(old(self).scroll_state, key.code),
    {
        match key.code {
            KeyCode::Char('j') => self.scroll_state.next(),
            KeyCode::Char('k') => self.scroll_state.prev(),
            _ => {},
        }
    }

    /// What drawing the post in a frame with `inner_height` rows of text does
    /// to the scrollbar: it can go as far as the text is taller than the
    /// frame, and the position is held within that. Hands back the first
    /// line to show.
    pub fn fit_to_view(&mut self, inner_height: u16) -> (r: usize)
        requires
            old(self).height < usize::MAX,
        ensures
            final(self).post == old(self).post,
            final(self).height == old(self).height,
            final(self).scroll_state.content_length == saturating_sub(old(self).height, inner_height as usize) + 1,
            final(self).scroll_state.position == min_usize(
                old(self).scroll_state.position,
                saturating_sub(old(self).height, inner_height as usize),
            ),
            r == final(self).scroll_state.position,
    {
        let overflow = sat_sub(self.height, inner_height as usize);
        let position = if self.scroll_state.position < overflow { self.scroll_state.position } else { overflow };
        self.scroll_state = ScrollState { content_length: overflow + 1, position };
        position
    }

    /// The labels shown under the post: `" j: down "` and `" k: up "`.
    pub fn get_labels(&self) -> (r: Vec<String>)
        ensures
            r@.len() == 2,
            r@[0]@ == label_text(seq!['j'], seq!['d', 'o', 'w', 'n']),
            r@[1]@ == label_text(seq!['k'], seq!['u', 'p']),
    {
        let down = Label::new("j", "down");
        let up = Label::new("k", "up");
        proof {
            reveal_strlit("j");
            reveal_strlit("down");
            reveal_strlit("k");
            reveal_strlit("up");
        }
        assert(down@ =~= label_text(seq!['j'], seq!['d', 'o', 'w', 'n']));
        assert(up@ =~= label_text(seq!['k'], seq!['u', 'p']));
        let mut r = Vec::new();
        r.push(down);
        r.push(up);
        r
    }
}

/// Law: `k` scrolls up one line, stopping at the top, and `j` scrolls down
/// one line where the text goes on; neither changes the length of the bar,
/// and `j` after `k` from below the top comes back to where it was.
pub proof fn lemma_keys_scroll_by_one_line(s: ScrollState)
    ensures
        scrolled(s, KeyCode::Char('k')).content_length == s.content_length,
        scrolled(s, KeyCode::Char('k')).position == if s.position == 0 { 0 } else { s.position - 1 },
        0 < s.position ==> scrolled(s, KeyCode::Char('k')).position < s.position,
        scrolled(s, KeyCode::Char('j')).content_length == s.content_length,
        s.position + 1 < s.content_length ==> scrolled(s, KeyCode::Char('j')).position == s.position + 1,
        scrolled(s, KeyCode::Char('j')).position <= s.position + 1,
        0 < s.position < s.content_length ==> scrolled(scrolled(s, KeyCode::Char('k')), KeyCode::Char('j')) == s,
{
}

} // verus!
