use vstd::prelude::*;
use crate::tui::keys::{KeyCode, KeyEvent};
use crate::tui::selection::{ListSelection, saturating_add, saturating_sub};

verus! {

/// A list of items, one of which can be selected.
pub struct Selectable<T> {
    pub items: Vec<T>,
    pub state: ListSelection,
}

impl<T> Selectable<T> {
    /// `items` with the first one selected.
    pub fn new(items: Vec<T>) -> (r: Selectable<T>)
        ensures
            r.items == items,
            r.state.selected == Some(0usize),
    {
        Selectable { items, state: ListSelection::with_selected(Some(0)) }
    }

    /// The selected item, where something is selected and the place holds an item.
    pub fn selected_item(&self) -> (r: Option<&T>)
        ensures
            match self.state.selected {
                Some(i) => if i < self.items@.len() { r == Some(&self.items@[i as int]) } else { r is None },
                None => r is None,
            },
    {
        match self.state.selected {
            Some(i) => {
                if i < self.items.len() {
                    Some(&self.items[i])
                } else {
                    None
                }
            },
            None => None,
        }
    }

    /// `j` moves the selection one down and `k` one up, from the first item
    /// when none is selected; other keys do nothing.
    pub fn handle_key_event(&mut self, key: KeyEvent)
        ensures
            final(self).items == old(self).items,
            final(self).state.selected == match key.code {
                KeyCode::Char('j') => Some(saturating_add(
                    match old(self).state.selected {
                        Some(i) => i,
                        None => 0,
                    },
                    1,
                )),
                KeyCode::Char('k') => Some(saturating_sub(
                    match old(self).state.selected {
                        Some(i) => i,
                        None => 0,
                    },
                    1,
                )),
                _ => old(self).state.selected,
            },
    {
        match key.code {
            KeyCode::Char('j') => self.state.scroll_down_by(1),
            KeyCode::Char('k') => self.state.scroll_up_by(1),
            _ => {},
        }
    }
}

} // verus!
