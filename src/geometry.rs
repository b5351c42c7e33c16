//! The split of a pane's height between its header and its content rows,
//! shared by the gutter and the content so that both count rows alike.

use vstd::prelude::*;

verus! {

/// Rows at the top of the pane that hold the title, not content.
pub const HEADER_ROWS: usize = 1;

/// The height of a pane and the rows its header takes.
pub struct Geometry {
    pub height: usize,
    pub header_rows: usize,
}

impl Geometry {
    /// The rows left for content; none when the header takes them all.
    pub open spec fn spec_content_rows(self) -> int {
        if self.header_rows <= self.height {
            self.height - self.header_rows
        } else {
            0
        }
    }

    /// The geometry of a pane `height` rows tall with a one-row title.
    pub fn new(height: usize) -> (r: Geometry)
        ensures
            r.height == height,
            r.header_rows == HEADER_ROWS,
    {
        Geometry { height, header_rows: HEADER_ROWS }
    }

    /// The number of rows that show lines of the document.
    pub fn content_rows(&self) -> (r: usize)
        ensures
            r as int == self.spec_content_rows(),
    {
        if self.header_rows <= self.height {
            self.height - self.header_rows
        } else {
            0
        }
    }
}

} // verus!
