//! The document: a file's text split into lines, read-only once loaded.

use vstd::prelude::*;

verus! {

broadcast use vstd::string::group_string_axioms;

/// A line without a carriage return at its end.
pub open spec fn strip_cr(line: Seq<char>) -> Seq<char> {
    if line.len() > 0 && line.last() == '\r' {
        line.drop_last()
    } else {
        line
    }
}

/// The pieces of `s` between newlines, one more than there are newlines;
/// each piece that a newline ends loses a carriage return before it.
pub open spec fn split_lines(s: Seq<char>) -> Seq<Seq<char>>
    decreases s.len(),
{
    if s.len() == 0 {
        seq![Seq::<char>::empty()]
    } else {
        let prev = split_lines(s.drop_last());
        if s.last() == '\n' {
            prev.update(prev.len() - 1, strip_cr(prev.last())).push(Seq::<char>::empty())
        } else {
            prev.update(prev.len() - 1, prev.last().push(s.last()))
        }
    }
}

/// The lines of a text: its pieces between newlines, where a newline at the
/// very end opens no further line. An empty text has one empty line.
pub open spec fn document_lines(s: Seq<char>) -> Seq<Seq<char>> {
    if s.len() > 0 && s.last() == '\n' {
        split_lines(s).drop_last()
    } else {
        split_lines(s)
    }
}

pub proof fn lemma_split_nonempty(s: Seq<char>)
    ensures
        split_lines(s).len() >= 1,
        s.len() > 0 && s.last() == '\n' ==> split_lines(s).len() >= 2,
    decreases s.len(),
{
    if s.len() > 0 {
        lemma_split_nonempty(s.drop_last());
    }
}

/// Every document has at least one line, and an empty text has exactly one,
/// which is empty.
pub proof fn lemma_document_has_a_line(s: Seq<char>)
    ensures
        document_lines(s).len() >= 1,
        s.len() == 0 ==> document_lines(s) == seq![Seq::<char>::empty()],
{
    lemma_split_nonempty(s);
}

/// Relies on `String::from_iter` over `char`s: the string holds exactly
/// those characters, in order.
#[verifier::external_body]
fn string_of_chars(chars: &Vec<char>) -> (r: String)
    ensures
        r@ == chars@,
{
    String::from_iter(chars.iter())
}

/// The lines of a file, numbered from one.
pub struct Document {
    lines: Vec<String>,
}

impl View for Document {
    type V = Seq<Seq<char>>;

    closed spec fn view(&self) -> Seq<Seq<char>> {
        self.lines@.map_values(|l: String| l@)
    }
}

impl Document {
    /// Splits `text` into its lines.
    pub fn load(text: &str) -> (d: Document)
        ensures
            d@ == document_lines(text@),
            d@.len() >= 1,
    {
        let mut lines: Vec<String> = Vec::new();
        let mut cur: Vec<char> = Vec::new();
        let mut last: Option<char> = None;
        for c in it: text.chars()
            invariant
                it.seq() == text@,
                lines@.map_values(|l: String| l@).push(cur@) == split_lines(
                    text@.take(it.index()),
                ),
                last == (if it.index() == 0 {
                    None
                } else {
                    Some(text@[it.index() - 1])
                }),
        {
            let ghost done = text@.take(it.index());
            let ghost next = text@.take(it.index() + 1);
            assert(next.drop_last() =~= done);
            proof {
                lemma_split_nonempty(done);
            }
            if c == '\n' {
                if cur.len() > 0 && cur[cur.len() - 1] == '\r' {
                    cur.pop();
                }
                let line: String = string_of_chars(&cur);
                lines.push(line);
                cur = Vec::new();
                assert(lines@.map_values(|l: String| l@).push(cur@) =~= split_lines(next));
            } else {
                cur.push(c);
                assert(lines@.map_values(|l: String| l@).push(cur@) =~= split_lines(next));
            }
            last = Some(c);
        }
        assert(text@.take(text@.len() as int) =~= text@);
        proof {
            lemma_split_nonempty(text@);
        }
        if last == Some('\n') {
            assert(lines@.map_values(|l: String| l@) =~= document_lines(text@));
        } else {
            let line: String = string_of_chars(&cur);
            lines.push(line);
            assert(lines@.map_values(|l: String| l@) =~= document_lines(text@));
        }
        Document { lines }
    }

    /// Number of lines; at least one for a loaded document.
    pub fn line_count(&self) -> (r: usize)
        ensures
            r as int == self@.len(),
    {
        self.lines.len()
    }

    /// The line numbered `number`, counting from one.
    pub fn line(&self, number: usize) -> (r: &String)
        requires
            1 <= number <= self@.len(),
        ensures
            r@ == self@[number - 1],
    {
        &self.lines[number - 1]
    }
}

} // verus!
