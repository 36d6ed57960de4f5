//! The ordered collection of page rows, and the bookmark-highlight pass
//! that keeps at most one row visually marked as the bookmark.

use vstd::prelude::*;

use crate::row::{ticked, with_style, PagesItem};
use crate::style::{bookmarked_row_style, default_row_style, RowStyle};

verus! {

/// The ordered rows of one document; index order is render order.
#[derive(PartialEq, Clone, Debug)]
pub struct PagesList {
    pub pages: Vec<PagesItem>,
}

/// The rows after one bookmark pass aimed at `i`: every style cleared to the
/// default, then the bookmark style on row `i` alone, if such a row exists.
pub open spec fn bookmark_applied(rows: Seq<PagesItem>, i: int) -> Seq<PagesItem> {
    Seq::new(
        rows.len(),
        |j: int|
            with_style(
                rows[j],
                if j == i {
                    bookmarked_row_style()
                } else {
                    default_row_style()
                },
            ),
    )
}

/// The rows after one animation tick, each row advanced independently.
pub open spec fn all_ticked(rows: Seq<PagesItem>) -> Seq<PagesItem> {
    Seq::new(rows.len(), |j: int| ticked(rows[j]))
}

impl PagesList {
    /// Wrap a pre-built ordered sequence of rows, as given.
    pub fn new(pages: Vec<PagesItem>) -> (l: PagesList)
        ensures
            l.pages@ == pages@,
    {
        PagesList { pages }
    }

    /// Advance every row's animation once, in index order.
    pub fn on_tick(&mut self)
        ensures
            final(self).pages@ == all_ticked(old(self).pages@),
    {
        let n = self.pages.len();
        let mut k: usize = 0;
        while k < n
            invariant
                k <= n,
                n == self.pages@.len(),
                self.pages@.len() == old(self).pages@.len(),
                forall|j: int| 0 <= j < k ==> self.pages@[j] == ticked(old(self).pages@[j]),
                forall|j: int| k <= j < n ==> self.pages@[j] == old(self).pages@[j],
            decreases n - k,
        {
            self.pages[k].on_tick();
            k = k + 1;
        }
        proof {
            assert(self.pages@ =~= all_ticked(old(self).pages@));
        }
    }

    /// Clear every row's style back to the default.
    fn reset_style(&mut self)
        ensures
            final(self).pages@.len() == old(self).pages@.len(),
            forall|j: int|
                0 <= j < old(self).pages@.len() ==> final(self).pages@[j] == with_style(
                    old(self).pages@[j],
                    default_row_style(),
                ),
    {
        let n = self.pages.len();
        let mut k: usize = 0;
        while k < n
            invariant
                k <= n,
                n == self.pages@.len(),
                self.pages@.len() == old(self).pages@.len(),
                forall|j: int|
                    0 <= j < k ==> self.pages@[j] == with_style(
                        old(self).pages@[j],
                        default_row_style(),
                    ),
                forall|j: int| k <= j < n ==> self.pages@[j] == old(self).pages@[j],
            decreases n - k,
        {
            self.pages[k].style = RowStyle::default();
            k = k + 1;
        }
    }

    /// The only way bookmark styling is ever applied: clear every row first,
    /// then mark row `page_index` if it exists. An out-of-range index leaves
    /// all rows cleared and is not an error.
    pub fn highlight_page_as_bookmarked(&mut self, page_index: usize)
        ensures
            final(self).pages@ == bookmark_applied(old(self).pages@, page_index as int),
    {
        self.reset_style();
        if page_index < self.pages.len() {
            self.pages[page_index].style = RowStyle::bookmarked();
        }
        proof {
            assert(self.pages@ =~= bookmark_applied(old(self).pages@, page_index as int));
        }
    }
}

impl Default for PagesList {
    /// An empty collection.
    fn default() -> (l: PagesList)
        ensures
            l.pages@ == Seq::<PagesItem>::empty(),
    {
        PagesList { pages: Vec::new() }
    }
}

/// Single-bookmark invariant: after a bookmark pass aimed at `i`, row `i`
/// carries the bookmark style if `i` is in range, every other row carries
/// the default style, and no row but `i` can ever carry the bookmark style —
/// whatever the rows held before the pass.
pub proof fn lemma_single_bookmark(rows: Seq<PagesItem>, i: int)
    ensures
        0 <= i < rows.len() ==> bookmark_applied(rows, i)[i].style == bookmarked_row_style(),
        forall|j: int|
            0 <= j < rows.len() && j != i ==> (#[trigger] bookmark_applied(rows, i)[j]).style
                == default_row_style(),
        forall|j: int|
            0 <= j < rows.len() && (#[trigger] bookmark_applied(rows, i)[j]).style
                == bookmarked_row_style() ==> j == i,
{
}

/// Idempotence of clearing: a second bookmark pass with the same index
/// changes nothing — one pass already leaves the rows in their final shape.
pub proof fn lemma_highlight_idempotent(rows: Seq<PagesItem>, i: int)
    ensures
        bookmark_applied(bookmark_applied(rows, i), i) == bookmark_applied(rows, i),
{
    assert(bookmark_applied(bookmark_applied(rows, i), i) =~= bookmark_applied(rows, i));
}

} // verus!
