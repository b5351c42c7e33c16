//! Sizing of the line-number gutter.

use vstd::prelude::*;

verus! {

/// The narrowest gutter: one digit and one column of padding.
pub const MIN_GUTTER_WIDTH: usize = 2;

/// Number of decimal digits in `n` (zero has one digit).
pub open spec fn digits(n: nat) -> nat
    decreases n,
{
    if n < 10 {
        1
    } else {
        1 + digits(n / 10)
    }
}

/// Numbers never need fewer digits than smaller numbers.
pub proof fn lemma_digits_monotone(a: nat, b: nat)
    requires
        a <= b,
    ensures
        digits(a) <= digits(b),
    decreases b,
{
    if b >= 10 && a >= 10 {
        lemma_digits_monotone(a / 10, b / 10);
    }
}

/// A number of two or more has fewer digits than its value.
proof fn lemma_digits_small(n: nat)
    ensures
        n >= 2 ==> digits(n) < n,
    decreases n,
{
    if n >= 10 {
        lemma_digits_small(n / 10);
        assert(digits(n) == 1 + digits(n / 10));
        assert(n / 10 >= 1);
        if n / 10 == 1 {
            assert(digits(1) == 1);
        }
    }
}

/// Counts the decimal digits of `n`.
pub fn digit_count(n: usize) -> (r: usize)
    ensures
        r == digits(n as nat),
        r >= 1,
{
    let mut m: usize = n;
    let mut count: usize = 1;
    while m >= 10
        invariant
            count + digits(m as nat) == 1 + digits(n as nat),
            count <= 1 + n - m,
            m <= n,
        decreases m,
    {
        m = m / 10;
        count = count + 1;
    }
    count
}

/// The last line number that a viewport starting at `offset` and `height`
/// rows tall can show in a document of `n` lines.
pub open spec fn last_visible(offset: int, height: int, n: int) -> int {
    if offset + height - 1 <= n {
        offset + height - 1
    } else {
        n
    }
}

/// Width of a gutter that fits the largest number that can be shown, plus
/// one column of padding.
pub open spec fn gutter_width(offset: int, height: int, n: int) -> int {
    digits(last_visible(offset, height, n) as nat) + 1int
}

/// Computes the gutter width needed for the rows `offset ..= offset +
/// height - 1`, cut off at line `n`.
pub fn minimal_width(offset: usize, height: usize, n: usize) -> (r: usize)
    requires
        1 <= offset,
    ensures
        r as int == gutter_width(offset as int, height as int, n as int),
        r >= MIN_GUTTER_WIDTH,
{
    let last: usize = if height == 0 {
        if offset - 1 <= n { offset - 1 } else { n }
    } else if height - 1 >= n || offset > n - (height - 1) {
        n
    } else {
        offset + (height - 1)
    };
    let d: usize = digit_count(last);
    proof {
        lemma_digits_small(last as nat);
    }
    d + 1
}

/// The width used when `available` columns cannot hold the `needed` width:
/// the gutter shrinks to its minimum rather than failing the frame.
pub open spec fn fitted_width(needed: int, available: int) -> int {
    if needed <= available {
        needed
    } else {
        MIN_GUTTER_WIDTH as int
    }
}

/// The gutter width to draw with `available` columns at hand.
pub fn fit_width(needed: usize, available: usize) -> (r: usize)
    ensures
        r as int == fitted_width(needed as int, available as int),
{
    if needed <= available {
        needed
    } else {
        MIN_GUTTER_WIDTH
    }
}

/// The gutter never narrows as the document grows, for a fixed offset and
/// height; and it depends on nothing but those three values, so computing it
/// again gives the same width.
pub proof fn lemma_gutter_width_monotone(offset: nat, height: nat, n1: nat, n2: nat)
    requires
        1 <= offset,
        n1 <= n2,
    ensures
        gutter_width(offset as int, height as int, n1 as int) <= gutter_width(
            offset as int,
            height as int,
            n2 as int,
        ),
        gutter_width(offset as int, height as int, n1 as int) == gutter_width(
            offset as int,
            height as int,
            n1 as int,
        ),
{
    lemma_digits_monotone(
        last_visible(offset as int, height as int, n1 as int) as nat,
        last_visible(offset as int, height as int, n2 as int) as nat,
    );
}

/// Every line number from `offset` to the last visible one fits in the
/// gutter with its column of padding.
pub proof fn lemma_gutter_fits_visible_numbers(offset: nat, height: nat, n: nat, k: nat)
    requires
        1 <= offset <= k <= last_visible(offset as int, height as int, n as int),
    ensures
        digits(k) + 1 <= gutter_width(offset as int, height as int, n as int),
{
    lemma_digits_monotone(k, last_visible(offset as int, height as int, n as int) as nat);
}

} // verus!
