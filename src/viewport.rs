//! The scroll state: which line of the document stands in the first content
//! row, clamped to the document at every change.

use vstd::prelude::*;
use crate::gutter::last_visible;

verus! {

/// The mathematical state of a viewport: the first visible line and the
/// last line of the document (a document of no lines counts as one line).
pub struct ScrollState {
    pub offset: int,
    pub last_line: int,
}

/// The largest offset for a document of `n` lines.
pub open spec fn last_line_of(n: int) -> int {
    if n < 1 {
        1
    } else {
        n
    }
}

impl ScrollState {
    /// The offset lies on a line of the document.
    pub open spec fn wf(self) -> bool {
        &&& 1 <= self.last_line
        &&& 1 <= self.offset <= self.last_line
    }

    /// The state after moving `by` lines toward the end, stopping at the
    /// last line.
    pub open spec fn scrolled_down(self, by: int) -> ScrollState {
        ScrollState {
            offset: if self.offset + by <= self.last_line {
                self.offset + by
            } else {
                self.last_line
            },
            ..self
        }
    }

    /// The state after moving `by` lines toward the start, stopping at the
    /// first line.
    pub open spec fn scrolled_up(self, by: int) -> ScrollState {
        ScrollState {
            offset: if self.offset - by >= 1 {
                self.offset - by
            } else {
                1
            },
            ..self
        }
    }

    /// The state after each step in turn: a step of `k > 0` scrolls down by
    /// `k`, one of `k < 0` scrolls up by `-k`, zero leaves it.
    pub open spec fn after_steps(self, steps: Seq<int>) -> ScrollState
        decreases steps.len(),
    {
        if steps.len() == 0 {
            self
        } else {
            let k = steps.last();
            let before = self.after_steps(steps.drop_last());
            if k >= 0 {
                before.scrolled_down(k)
            } else {
                before.scrolled_up(-k)
            }
        }
    }

    /// The last line number shown in `height` rows, cut off at the last line;
    /// one less than `offset` when `height` is zero.
    pub open spec fn range_end(self, height: int) -> int {
        last_visible(self.offset, height, self.last_line)
    }
}

/// The first visible line of a document, kept within the document.
pub struct Viewport {
    offset: usize,
    last_line: usize,
}

impl View for Viewport {
    type V = ScrollState;

    closed spec fn view(&self) -> ScrollState {
        ScrollState { offset: self.offset as int, last_line: self.last_line as int }
    }
}

impl Viewport {
    pub open spec fn wf(&self) -> bool {
        self@.wf()
    }

    /// A viewport on the first line of a document of `line_count` lines.
    pub fn new(line_count: usize) -> (r: Viewport)
        ensures
            r@ == (ScrollState { offset: 1, last_line: last_line_of(line_count as int) }),
            r.wf(),
    {
        let last_line: usize = if line_count == 0 { 1 } else { line_count };
        Viewport { offset: 1, last_line }
    }

    /// The line number shown in the first content row.
    pub fn offset(&self) -> (r: usize)
        ensures
            r as int == self@.offset,
    {
        self.offset
    }

    /// The last line of the document (at least one).
    pub fn last_line(&self) -> (r: usize)
        ensures
            r as int == self@.last_line,
    {
        self.last_line
    }

    /// Moves `by` lines toward the end of the document, stopping at its
    /// last line.
    pub fn scroll_down(&mut self, by: usize)
        requires
            old(self).wf(),
        ensures
            final(self)@ == old(self)@.scrolled_down(by as int),
            final(self).wf(),
    {
        if by >= self.last_line - self.offset {
            self.offset = self.last_line;
        } else {
            self.offset = self.offset + by;
        }
    }

    /// Moves `by` lines toward the start of the document, stopping at its
    /// first line.
    pub fn scroll_up(&mut self, by: usize)
        requires
            old(self).wf(),
        ensures
            final(self)@ == old(self)@.scrolled_up(by as int),
            final(self).wf(),
    {
        if by >= self.offset {
            self.offset = 1;
        } else {
            self.offset = self.offset - by;
        }
    }

    /// The first and last line numbers visible in `height` rows. The range
    /// is empty (`end == start - 1`) when `height` is zero.
    pub fn visible_range(&self, height: usize) -> (r: (usize, usize))
        requires
            self.wf(),
        ensures
            r.0 as int == self@.offset,
            r.1 as int == self@.range_end(height as int),
    {
        let end: usize = if height == 0 {
            self.offset - 1
        } else if height - 1 >= self.last_line - self.offset {
            self.last_line
        } else {
            self.offset + (height - 1)
        };
        (self.offset, end)
    }
}

/// Scrolling keeps the offset on a line of the document, whatever steps are
/// taken from a valid state.
pub proof fn lemma_scrolling_stays_in_range(s: ScrollState, steps: Seq<int>)
    requires
        s.wf(),
    ensures
        s.after_steps(steps).wf(),
        s.after_steps(steps).last_line == s.last_line,
    decreases steps.len(),
{
    if steps.len() > 0 {
        lemma_scrolling_stays_in_range(s, steps.drop_last());
    }
}

/// The visible range never reaches past the last line of the document.
pub proof fn lemma_range_within_document(s: ScrollState, height: nat)
    requires
        s.wf(),
    ensures
        s.range_end(height as int) <= s.last_line,
        s.offset - 1 <= s.range_end(height as int),
{
}

/// Scrolling down from the last line changes nothing.
pub proof fn lemma_scroll_down_at_end(s: ScrollState, by: nat)
    requires
        s.wf(),
        s.offset == s.last_line,
    ensures
        s.scrolled_down(by as int) == s,
{
}

} // verus!
