use vstd::prelude::*;
use crate::text::{pop_char, push_char};
use crate::tui::keys::{KeyCode, KeyEvent};
use crate::tui::label::{Label, label_text};
use crate::tui::size::MinSize;

verus! {

/// The line where a search query is typed.
pub struct SearchBar {
    pub text: String,
}

/// The text of the one label of the search bar, `" enter: search "`.
pub open spec fn search_bar_label() -> Seq<char> {
    label_text(seq!['e', 'n', 't', 'e', 'r'], seq!['s', 'e', 'a', 'r', 'c', 'h'])
}

/// The text of the bar after `code` is typed into `text`: a char is
/// appended, Backspace removes the last char, and other keys leave it.
pub open spec fn typed(text: Seq<char>, code: KeyCode) -> Seq<char> {
    match code {
        KeyCode::Char(c) => text.push(c),
        KeyCode::Backspace => if text.len() > 0 { text.drop_last() } else { text },
        _ => text,
    }
}

/// The query handed back when `code` is typed into `text`: the text, on
/// Enter, when it is not empty.
pub open spec fn submitted(text: Seq<char>, code: KeyCode) -> Option<Seq<char>> {
    if code == KeyCode::Enter && text.len() > 0 {
        Some(text)
    } else {
        None
    }
}

/// Law: Backspace takes back the char just typed.
pub proof fn lemma_backspace_undoes_typing(text: Seq<char>, c: char)
    ensures
        typed(typed(text, KeyCode::Char(c)), KeyCode::Backspace) == text,
{
    assert(text.push(c).drop_last() =~= text);
}

impl SearchBar {
    pub fn new(query: String) -> (r: SearchBar)
        ensures
            r.text == query,
    {
        SearchBar { text: query }
    }

    /// Typing a char appends it, Backspace removes the last char, and Enter
    /// hands back the query when it is not empty. Other keys do nothing.
    pub fn handle_key_event(&mut self, key: KeyEvent) -> (r: Option<String>)
        ensures
            final(self).text@ == typed(old(self).text@, key.code),
            match submitted(old(self).text@, key.code) {
                Some(q) => r matches Some(t) && t@ == q,
                None => r is None,
            },
    {
        match key.code {
            KeyCode::Char(c) => {
                push_char(&mut self.text, c);
            },
            KeyCode::Backspace => {
                let _ = pop_char(&mut self.text);
            },
            KeyCode::Enter => {
                if !self.text.as_str().is_empty() {
                    return Some(self.text.clone());
                }
            },
            _ => {},
        }
        None
    }

    /// The labels shown under the bar: `" enter: search "`.
    pub fn get_labels(&self) -> (r: Vec<String>)
        ensures
            r@.len() == 1,
            r@[0]@ == search_bar_label(),
    {
        let label = Label::new("enter", "search");
        proof {
            reveal_strlit("enter");
            reveal_strlit("search");
        }
        assert(label@ =~= search_bar_label());
        let mut r = Vec::new();
        r.push(label);
        r
    }

    /// Room for the label inside a border, three rows high.
    pub fn get_min_size(&self) -> (r: MinSize)
        ensures
            r.width == search_bar_label().len() + 2,
            r.height == 3,
    {
        let labels = self.get_labels();
        let text = Label::join(labels);
        assert(text@ =~= search_bar_label());
        proof {
            vstd::utf8::is_ascii_chars_encode_utf8(text@);
        }
        let len = text.as_str().len();
        assert(len == 15);
        MinSize::new((len + 2) as u16, 3)
    }
}

} // verus!
