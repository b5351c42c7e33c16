//! The rows that a frame shows: each a line number beside that line's text.

use vstd::prelude::*;
use crate::document::Document;
use crate::viewport::Viewport;

verus! {

/// One content row: the gutter's number and the line shown beside it.
pub struct Row {
    pub number: usize,
    pub text: String,
}

/// `rows` are the lines `first ..= last` of `doc`, in order, each beside its
/// own number.
pub open spec fn rows_show(rows: Seq<Row>, doc: Seq<Seq<char>>, first: int, last: int) -> bool {
    &&& rows.len() == last - first + 1
    &&& forall|i: int|
        0 <= i < rows.len() ==> {
            &&& #[trigger] rows[i].number == first + i
            &&& rows[i].text@ == doc[first + i - 1]
        }
}

/// The rows shown in `height` content rows: from the viewport's first line
/// to the last that fits, never past the end of the document.
pub fn visible_rows(document: &Document, viewport: &Viewport, height: usize) -> (rows: Vec<Row>)
    requires
        viewport.wf(),
        viewport@.last_line == document@.len(),
    ensures
        rows_show(rows@, document@, viewport@.offset, viewport@.range_end(height as int)),
{
    let (first, last) = viewport.visible_range(height);
    let count: usize = last - (first - 1);
    let mut rows: Vec<Row> = Vec::new();
    let mut i: usize = 0;
    while i < count
        invariant
            first as int == viewport@.offset,
            last as int == viewport@.range_end(height as int),
            1 <= first,
            last <= document@.len(),
            count == last - first + 1,
            i <= count,
            rows_show(rows@, document@, first as int, first + i - 1),
        decreases count - i,
    {
        let number: usize = first + i;
        let text: String = document.line(number).clone();
        rows.push(Row { number, text });
        i = i + 1;
    }
    rows
}

} // verus!
