//! Tab stops.
use vstd::prelude::*;

verus! {

/// The tab stops of a line, one flag for each column, and the distance at
/// which stops are laid out.
pub struct TabStop {
    tabs: Vec<bool>,
    tab_width: usize,
}

/// Tab stops as a mathematical value.
#[verifier::ext_equal]
pub struct TabModel {
    pub stops: Seq<bool>,
    pub width: usize,
}

impl View for TabStop {
    type V = TabModel;

    closed spec fn view(&self) -> TabModel {
        TabModel { stops: self.tabs@, width: self.tab_width }
    }
}

impl TabModel {
    /// A stop at every multiple of `width` below `screen_width`.
    pub open spec fn regular(screen_width: nat, width: usize) -> TabModel {
        TabModel { stops: Seq::new(screen_width, |i: int| i % width as int == 0), width }
    }

    /// The stops that are there, and a stop at every multiple of the width
    /// among the columns that are new.
    pub open spec fn grown(self, screen_width: int) -> TabModel {
        if screen_width <= self.stops.len() {
            self
        } else {
            TabModel {
                stops: Seq::new(
                    screen_width as nat,
                    |i: int|
                        if i < self.stops.len() {
                            self.stops[i]
                        } else {
                            i % self.width as int == 0
                        },
                ),
                ..self
            }
        }
    }

    pub open spec fn with_stop(self, col: int) -> TabModel {
        TabModel { stops: self.stops.update(col, true), ..self }
    }

    /// `next` is the first stop to the right of `col`; there is none where it is
    /// `None`.
    pub open spec fn is_next_stop(self, col: int, next: Option<usize>) -> bool {
        match next {
            Some(i) => {
                &&& col < i < self.stops.len()
                &&& self.stops[i as int]
                &&& forall|j: int| col < j < i ==> !#[trigger] self.stops[j]
            },
            None => forall|j: int| col < j < self.stops.len() ==> !#[trigger] self.stops[j],
        }
    }

    /// The first stop to the right of `col`, if there is one.
    pub open spec fn next_stop(self, col: int) -> Option<usize> {
        choose|next: Option<usize>| self.is_next_stop(col, next)
    }
}

/// Finds the next stop, given that there is none up to `from`.
proof fn lemma_next_stop_after(m: TabModel, col: int, from: int)
    requires
        -1 <= col <= from,
        m.stops.len() <= usize::MAX,
        forall|j: int| col < j <= from && j < m.stops.len() ==> !#[trigger] m.stops[j],
    ensures
        m.is_next_stop(col, m.next_stop(col)),
    decreases m.stops.len() - from,
{
    if from + 1 >= m.stops.len() {
        assert(m.is_next_stop(col, None));
    } else if m.stops[from + 1] {
        assert(m.is_next_stop(col, Some((from + 1) as usize)));
    } else {
        lemma_next_stop_after(m, col, from + 1);
    }
}

/// There is an answer to what the next tab stop is.
pub proof fn law_next_stop(m: TabModel, col: int)
    requires
        col >= -1,
        m.stops.len() <= usize::MAX,
    ensures
        m.is_next_stop(col, m.next_stop(col)),
{
    lemma_next_stop_after(m, col, col);
}

/// There is at most one answer to what the next tab stop is.
pub proof fn law_next_stop_unique(m: TabModel, col: int, next: Option<usize>)
    requires
        m.is_next_stop(col, next),
        col >= -1,
    ensures
        m.next_stop(col) == next,
{
    let other = m.next_stop(col);
    match (next, other) {
        (Some(a), Some(b)) => {
            if a < b {
                assert(!m.stops[a as int]);
            } else if b < a {
                assert(!m.stops[b as int]);
            }
        },
        (Some(a), None) => {
            assert(!m.stops[a as int]);
        },
        (None, Some(b)) => {
            assert(!m.stops[b as int]);
        },
        (None, None) => {},
    }
}

/// Growing keeps every stop that was there, and growing in two steps is
/// growing in one.
pub proof fn law_grown(m: TabModel, first: int, second: int)
    requires
        0 <= first <= second,
    ensures
        forall|i: int| 0 <= i < m.stops.len() ==> #[trigger] m.grown(first).stops[i] == m.stops[i],
        m.grown(first).grown(second) == m.grown(second),
{
    assert(m.grown(first).grown(second).stops =~= m.grown(second).stops);
}

/// Among the columns that are new there is a stop at every multiple of the width.
pub proof fn law_grown_stops(m: TabModel, screen_width: int, col: int)
    requires
        m.stops.len() <= col < screen_width,
    ensures
        m.grown(screen_width).stops.len() == screen_width,
        m.grown(screen_width).stops[col] == (col % m.width as int == 0),
        m.grown(screen_width).width == m.width,
{
}

/// Setting a stop adds it, and takes none away.
pub proof fn law_with_stop(m: TabModel, col: int, other: int)
    requires
        0 <= col < m.stops.len(),
        0 <= other < m.stops.len(),
    ensures
        m.with_stop(col).stops[other] == (m.stops[other] || other == col),
        m.with_stop(col).stops.len() == m.stops.len(),
        m.with_stop(col).width == m.width,
{
}

/// Fresh stops that are grown are the fresh stops of the greater width.
pub proof fn law_grown_regular(from: nat, to: nat, width: usize)
    requires
        from <= to,
    ensures
        TabModel::regular(from, width).grown(to as int) == TabModel::regular(to, width),
{
    assert(TabModel::regular(from, width).grown(to as int).stops =~= TabModel::regular(
        to,
        width,
    ).stops);
}

impl TabStop {
    /// Stops at every multiple of `tab_width`.
    pub fn new(screen_width: usize, tab_width: usize) -> (stops: Self)
        requires
            tab_width > 0 || screen_width == 0,
        ensures
            stops@ == TabModel::regular(screen_width as nat, tab_width),
    {
        let mut tabs: Vec<bool> = Vec::with_capacity(screen_width);
        let mut i: usize = 0;
        while i < screen_width
            invariant
                i <= screen_width,
                tab_width > 0 || screen_width == 0,
                tabs@ == Seq::new(i as nat, |j: int| j % tab_width as int == 0),
            decreases screen_width - i,
        {
            tabs.push((i % tab_width) == 0);
            i += 1;
            assert(tabs@ =~= Seq::new(i as nat, |j: int| j % tab_width as int == 0));
        }
        TabStop { tabs, tab_width }
    }

    pub fn set_tab_stop(&mut self, col: usize)
        requires
            col < old(self)@.stops.len(),
        ensures
            final(self)@ == old(self)@.with_stop(col as int),
    {
        self.tabs.set(col, true);
    }

    /// The first tab stop to the right of `col`.
    pub fn find_next_tab_stop(&self, col: usize) -> (next: Option<usize>)
        ensures
            self@.is_next_stop(col as int, next),
            next == self@.next_stop(col as int),
    {
        let mut i: usize = col;
        while i < self.tabs.len() && i + 1 < self.tabs.len()
            invariant
                col <= i,
                i < self.tabs@.len() || i == col,
                forall|j: int| col < j <= i ==> !#[trigger] self.tabs@[j],
            decreases self.tabs@.len() - i,
        {
            i += 1;
            if self.tabs[i] {
                proof {
                    law_next_stop_unique(self@, col as int, Some(i));
                }
                return Some(i);
            }
        }
        proof {
            law_next_stop_unique(self@, col as int, None);
        }
        None
    }

    /// Respond to the terminal resizing.
    /// If the screen got bigger, we need to expand the tab stops
    /// into the new columns with the appropriate width.
    pub fn resize(&mut self, screen_width: usize)
        requires
            old(self)@.width > 0 || screen_width <= old(self)@.stops.len(),
        ensures
            final(self)@ == old(self)@.grown(screen_width as int),
    {
        let ghost before = self@;
        let current: usize = self.tabs.len();
        if screen_width > current {
            let mut i: usize = current;
            while i < screen_width
                invariant
                    current <= i <= screen_width,
                    current == before.stops.len(),
                    before.width > 0,
                    self.tab_width == before.width,
                    self.tabs@ == before.grown(i as int).stops,
                decreases screen_width - i,
            {
                self.tabs.push((i % self.tab_width) == 0);
                i += 1;
                assert(self.tabs@ =~= before.grown(i as int).stops);
            }
        }
    }
}

} // verus!
