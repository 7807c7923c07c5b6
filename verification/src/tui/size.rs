use vstd::prelude::*;

verus! {

/// A rectangle of the terminal: its corner and its extent, in cells.
#[derive(Debug, Clone, Copy, PartialEq, Eq, Structural)]
pub struct Area {
    pub x: u16,
    pub y: u16,
    pub width: u16,
    pub height: u16,
}

impl Area {
    pub fn new(x: u16, y: u16, width: u16, height: u16) -> (r: Area)
        ensures
            r == (Area { x, y, width, height }),
    {
        Area { x, y, width, height }
    }
}

/// The smallest extent a component needs to be drawn.
#[derive(Debug, Clone, Copy, PartialEq, Eq, Structural)]
pub struct MinSize {
    pub width: u16,
    pub height: u16,
}

/// The widths of `sizes` added up.
pub open spec fn total_width(sizes: Seq<MinSize>) -> int
    decreases sizes.len(),
{
    if sizes.len() == 0 {
        0
    } else {
        total_width(sizes.drop_last()) + sizes.last().width
    }
}

/// The heights of `sizes` added up.
pub open spec fn total_height(sizes: Seq<MinSize>) -> int
    decreases sizes.len(),
{
    if sizes.len() == 0 {
        0
    } else {
        total_height(sizes.drop_last()) + sizes.last().height
    }
}

/// The largest width in `sizes`, 0 when there is none.
pub open spec fn max_width(sizes: Seq<MinSize>) -> int
    decreases sizes.len(),
{
    if sizes.len() == 0 {
        0
    } else {
        let rest = max_width(sizes.drop_last());
        if rest < sizes.last().width { sizes.last().width as int } else { rest }
    }
}

/// The largest height in `sizes`, 0 when there is none.
pub open spec fn max_height(sizes: Seq<MinSize>) -> int
    decreases sizes.len(),
{
    if sizes.len() == 0 {
        0
    } else {
        let rest = max_height(sizes.drop_last());
        if rest < sizes.last().height { sizes.last().height as int } else { rest }
    }
}

proof fn lemma_totals_bound(sizes: Seq<MinSize>, i: int)
    requires
        0 <= i <= sizes.len(),
    ensures
        0 <= total_width(sizes.take(i)) <= total_width(sizes),
        0 <= total_height(sizes.take(i)) <= total_height(sizes),
        0 <= max_width(sizes),
        0 <= max_height(sizes),
        max_width(sizes) <= u16::MAX,
        max_height(sizes) <= u16::MAX,
    decreases sizes.len(),
{
    if sizes.len() > 0 {
        if i == sizes.len() {
            assert(sizes.take(i) =~= sizes);
        } else {
            assert(sizes.take(i) =~= sizes.drop_last().take(i));
        }
        lemma_totals_bound(sizes.drop_last(), if i == sizes.len() { i - 1 } else { i });
    }
}

/// Law: merging side by side or on top of each other gives a size at least as
/// large as each of the merged sizes in both directions, so an area that holds
/// the merged size holds every part.
pub proof fn lemma_merge_covers_each(sizes: Seq<MinSize>, i: int)
    requires
        0 <= i < sizes.len(),
    ensures
        sizes[i].width <= total_width(sizes),
        sizes[i].height <= max_height(sizes),
        sizes[i].width <= max_width(sizes),
        sizes[i].height <= total_height(sizes),
    decreases sizes.len(),
{
    lemma_totals_bound(sizes.drop_last(), 0);
    if i < sizes.len() - 1 {
        lemma_merge_covers_each(sizes.drop_last(), i);
    }
}

/// Law: merging a concatenation is merging the merges of its two halves, so
/// nested layouts need the same room as flat ones.
pub proof fn lemma_merge_concat(a: Seq<MinSize>, b: Seq<MinSize>)
    ensures
        total_width(a + b) == total_width(a) + total_width(b),
        total_height(a + b) == total_height(a) + total_height(b),
        max_width(a + b) == (if max_width(a) < max_width(b) { max_width(b) } else { max_width(a) }),
        max_height(a + b) == (if max_height(a) < max_height(b) { max_height(b) } else { max_height(a) }),
    decreases b.len(),
{
    lemma_totals_bound(a, 0);
    lemma_totals_bound(b, 0);
    if b.len() == 0 {
        assert(a + b =~= a);
    } else {
        assert((a + b).drop_last() =~= a + b.drop_last());
        lemma_merge_concat(a, b.drop_last());
    }
}

impl MinSize {
    pub fn new(width: u16, height: u16) -> (r: MinSize)
        ensures
            r.width == width,
            r.height == height,
    {
        MinSize { width, height }
    }

    /// The size of components laid side by side: the widths add up and the
    /// tallest height wins. An empty list needs no room.
    pub fn hmerge(sizes: Vec<MinSize>) -> (r: MinSize)
        requires
            total_width(sizes@) <= u16::MAX,
        ensures
            r.width == total_width(sizes@),
            r.height == max_height(sizes@),
    {
        let mut width: u16 = 0;
        let mut height: u16 = 0;
        let mut i: usize = 0;
        while i < sizes.len()
            invariant
                i <= sizes.len(),
                total_width(sizes@) <= u16::MAX,
                width == total_width(sizes@.take(i as int)),
                height == max_height(sizes@.take(i as int)),
            decreases sizes.len() - i,
        {
            proof {
                assert(sizes@.take(i + 1).drop_last() =~= sizes@.take(i as int));
                lemma_totals_bound(sizes@, i + 1);
            }
            let item = sizes[i];
            width = width + item.width;
            if height < item.height {
                height = item.height;
            }
            i = i + 1;
        }
        proof {
            assert(sizes@.take(sizes.len() as int) =~= sizes@);
        }
        MinSize { width, height }
    }

    /// The size of components stacked on top of each other: the heights add
    /// up and the widest width wins. An empty list needs no room.
    pub fn vmerge(sizes: Vec<MinSize>) -> (r: MinSize)
        requires
            total_height(sizes@) <= u16::MAX,
        ensures
            r.width == max_width(sizes@),
            r.height == total_height(sizes@),
    {
        let mut width: u16 = 0;
        let mut height: u16 = 0;
        let mut i: usize = 0;
        while i < sizes.len()
            invariant
                i <= sizes.len(),
                total_height(sizes@) <= u16::MAX,
                width == max_width(sizes@.take(i as int)),
                height == total_height(sizes@.take(i as int)),
            decreases sizes.len() - i,
        {
            proof {
                assert(sizes@.take(i + 1).drop_last() =~= sizes@.take(i as int));
                lemma_totals_bound(sizes@, i + 1);
            }
            let item = sizes[i];
            height = height + item.height;
            if width < item.width {
                width = item.width;
            }
            i = i + 1;
        }
        proof {
            assert(sizes@.take(sizes.len() as int) =~= sizes@);
        }
        MinSize { width, height }
    }

    /// Whether a component of this size can be drawn in `area`.
    pub fn fits_in(&self, area: Area) -> (r: bool)
        ensures
            r == (self.width <= area.width && self.height <= area.height),
    {
        self.width <= area.width && self.height <= area.height
    }
}

impl Default for MinSize {
    fn default() -> (r: MinSize)
        ensures
            r.width == 0 && r.height == 0,
    {
        MinSize { width: 0, height: 0 }
    }
}

} // verus!
