use vstd::prelude::*;

verus! {

/// Which item of a list is selected, moved the way the terminal list widget
/// moves its selection.
///
/// The widget's own state offers these moves as methods of a few lines each;
/// they are written here over the selection alone, with their statement.
#[derive(Debug, Clone, Copy, PartialEq, Eq, Structural)]
pub struct ListSelection {
    pub selected: Option<usize>,
}

/// `a + b`, or `usize::MAX` when that does not fit.
pub open spec fn saturating_add(a: usize, b: usize) -> usize {
    if a + b > usize::MAX { usize::MAX } else { (a + b) as usize }
}

/// `a - b`, or 0 when that is negative.
pub open spec fn saturating_sub(a: usize, b: usize) -> usize {
    if a < b { 0 } else { (a - b) as usize }
}

pub open spec fn min_usize(a: usize, b: usize) -> usize {
    if a < b { a } else { b }
}

pub fn sat_add(a: usize, b: usize) -> (r: usize)
    ensures
        r == saturating_add(a, b),
{
    if a > usize::MAX - b { usize::MAX } else { a + b }
}

pub fn sat_sub(a: usize, b: usize) -> (r: usize)
    ensures
        r == saturating_sub(a, b),
{
    if a < b { 0 } else { a - b }
}

impl ListSelection {
    /// Nothing selected.
    pub fn new() -> (r: ListSelection)
        ensures
            r.selected is None,
    {
        ListSelection { selected: None }
    }

    /// A selection of `selected`.
    pub fn with_selected(selected: Option<usize>) -> (r: ListSelection)
        ensures
            r.selected == selected,
    {
        ListSelection { selected }
    }

    pub fn selected(&self) -> (r: Option<usize>)
        ensures
            r == self.selected,
    {
        self.selected
    }

    pub fn select(&mut self, index: Option<usize>)
        ensures
            final(self).selected == index,
    {
        self.selected = index;
    }

    /// Selects the first item.
    pub fn select_first(&mut self)
        ensures
            final(self).selected == Some(0usize),
    {
        self.selected = Some(0);
    }

    /// Selects the item after the selected one, or the first when none is.
    pub fn select_next(&mut self)
        ensures
            final(self).selected == Some(
                match old(self).selected {
                    Some(i) => saturating_add(i, 1),
                    None => 0,
                },
            ),
    {
        let next = match self.selected {
            Some(i) => sat_add(i, 1),
            None => 0,
        };
        self.selected = Some(next);
    }

    /// Selects the item before the selected one, or `usize::MAX` (the last,
    /// once drawn) when none is.
    pub fn select_previous(&mut self)
        ensures
            final(self).selected == Some(
                match old(self).selected {
                    Some(i) => saturating_sub(i, 1),
                    None => usize::MAX,
                },
            ),
    {
        let previous = match self.selected {
            Some(i) => sat_sub(i, 1),
            None => usize::MAX,
        };
        self.selected = Some(previous);
    }

    /// Moves the selection `amount` items down, from the first when none is selected.
    pub fn scroll_down_by(&mut self, amount: u16)
        ensures
            final(self).selected == Some(
                saturating_add(
                    match old(self).selected {
                        Some(i) => i,
                        None => 0,
                    },
                    amount as usize,
                ),
            ),
    {
        let selected = match self.selected {
            Some(i) => i,
            None => 0,
        };
        self.selected = Some(sat_add(selected, amount as usize));
    }

    /// Moves the selection `amount` items up, from the first when none is selected.
    pub fn scroll_up_by(&mut self, amount: u16)
        ensures
            final(self).selected == Some(
                saturating_sub(
                    match old(self).selected {
                        Some(i) => i,
                        None => 0,
                    },
                    amount as usize,
                ),
            ),
    {
        let selected = match self.selected {
            Some(i) => i,
            None => 0,
        };
        self.selected = Some(sat_sub(selected, amount as usize));
    }

    /// What drawing a list of `len` items does to the selection: with no
    /// items nothing stays selected, and a selection past the end moves to
    /// the last item.
    pub fn fit_to(&mut self, len: usize)
        ensures
            len == 0 ==> final(self).selected is None,
            len > 0 ==> final(self).selected == match old(self).selected {
                Some(i) => Some(if i >= len { (len - 1) as usize } else { i }),
                None => None,
            },
    {
        if len == 0 {
            self.selected = None;
        } else {
            match self.selected {
                Some(i) => {
                    if i >= len {
                        self.selected = Some(len - 1);
                    }
                },
                None => {},
            }
        }
    }
}

/// The position of a scrollbar over content of some length.
#[derive(Debug, Clone, Copy, PartialEq, Eq, Structural)]
pub struct ScrollState {
    pub content_length: usize,
    pub position: usize,
}

impl ScrollState {
    /// At the start of content of `content_length`.
    pub fn new(content_length: usize) -> (r: ScrollState)
        ensures
            r.content_length == content_length,
            r.position == 0,
    {
        ScrollState { content_length, position: 0 }
    }

    /// One step further, but not past the last position of the content.
    pub fn next(&mut self)
        ensures
            final(self).content_length == old(self).content_length,
            final(self).position == min_usize(
                saturating_add(old(self).position, 1),
                saturating_sub(old(self).content_length, 1),
            ),
    {
        let pos = sat_add(self.position, 1);
        let last = sat_sub(self.content_length, 1);
        self.position = if pos < last { pos } else { last };
    }

    /// One step back, but not before the start.
    pub fn prev(&mut self)
        ensures
            final(self).content_length == old(self).content_length,
            final(self).position == saturating_sub(old(self).position, 1),
    {
        self.position = sat_sub(self.position, 1);
    }
}

} // verus!
