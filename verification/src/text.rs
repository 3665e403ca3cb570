//! Text building blocks for messages and directory names.

use vstd::prelude::*;

verus! {

/// `head` followed by `tail`.
pub fn join(head: &str, tail: &str) -> (text: String)
    ensures
        text@ == head@ + tail@,
{
    let mut text: String = head.to_string();
    text.append(tail);
    text
}

/// Whether two texts read the same.
pub fn same(a: &str, b: &str) -> (equal: bool)
    ensures
        equal == (a@ == b@),
{
    let left: String = a.to_string();
    let right: String = b.to_string();
    left == right
}

/// The decimal digit for a number below ten.
pub open spec fn digit(d: nat) -> char {
    (0x30 + d) as char
}

/// A number in decimal, without leading zeros.
pub open spec fn decimal_digits(n: nat) -> Seq<char>
    decreases n,
{
    if n < 10 {
        seq![digit(n)]
    } else {
        decimal_digits(n / 10).push(digit(n % 10))
    }
}

/// A number written in decimal.
pub fn decimal(n: u32) -> (text: String)
    ensures
        text@ == decimal_digits(n as nat),
    decreases n,
{
    let mut text: String = if n < 10 {
        String::new()
    } else {
        decimal(n / 10)
    };
    let d: u8 = (n % 10) as u8;
    text.push((0x30 + d) as char);
    text
}

/// `text` with every `c` replaced by `by`.
pub open spec fn replaced(text: Seq<char>, c: char, by: Seq<char>) -> Seq<char>
    decreases text.len(),
{
    if text.len() == 0 {
        Seq::empty()
    } else {
        let last = text.last();
        replaced(text.drop_last(), c, by) + if last == c {
            by
        } else {
            seq![last]
        }
    }
}

/// `text` with every `c` replaced by `by`.
pub fn replace(text: &str, c: char, by: &str) -> (out: String)
    ensures
        out@ == replaced(text@, c, by@),
{
    let mut out: String = String::new();
    for x in chars: text.chars()
        invariant
            chars.seq() == text@,
            out@ == replaced(text@.take(chars.index() as int), c, by@),
    {
        assert(text@.take(chars.index() + 1).drop_last() == text@.take(chars.index() as int));
        if x == c {
            out.append(by);
        } else {
            out.push(x);
        }
    }
    assert(text@.take(text@.len() as int) == text@);
    out
}

/// Replacing goes piece by piece.
pub proof fn lemma_replaced_in_two_parts(a: Seq<char>, b: Seq<char>, c: char, by: Seq<char>)
    ensures
        replaced(a + b, c, by) == replaced(a, c, by) + replaced(b, c, by),
    decreases b.len(),
{
    if b.len() > 0 {
        assert((a + b).drop_last() == a + b.drop_last());
        lemma_replaced_in_two_parts(a, b.drop_last(), c, by);
    }
}

/// Where nothing matches, nothing changes.
pub proof fn lemma_replaced_without_match(a: Seq<char>, c: char, by: Seq<char>)
    requires
        !a.contains(c),
    ensures
        replaced(a, c, by) == a,
    decreases a.len(),
{
    if a.len() > 0 {
        lemma_replaced_without_match(a.drop_last(), c, by);
    }
}

/// What is replaced is gone, unless it is part of the replacement.
pub proof fn lemma_replaced_has_no_match(a: Seq<char>, c: char, by: Seq<char>)
    requires
        !by.contains(c),
    ensures
        !replaced(a, c, by).contains(c),
    decreases a.len(),
{
    if a.len() > 0 {
        lemma_replaced_has_no_match(a.drop_last(), c, by);
    }
}

/// Each match is replaced on its own, and what has none stays as it is.
pub proof fn law_replace_goes_match_by_match(a: Seq<char>, b: Seq<char>, c: char, by: Seq<char>)
    ensures
        replaced(a + seq![c] + b, c, by) == replaced(a, c, by) + by + replaced(b, c, by),
        !a.contains(c) ==> replaced(a, c, by) == a,
{
    lemma_replaced_in_two_parts(a + seq![c], b, c, by);
    lemma_replaced_in_two_parts(a, seq![c], c, by);
    assert(seq![c].drop_last() == Seq::<char>::empty());
    assert(replaced(Seq::empty(), c, by) == Seq::<char>::empty());
    if !a.contains(c) {
        lemma_replaced_without_match(a, c, by);
    }
}

/// The number that decimal digits stand for.
pub open spec fn number_of(digits: Seq<char>) -> int
    decreases digits.len(),
{
    if digits.len() == 0 {
        0
    } else {
        10 * number_of(digits.drop_last()) + (digits.last() as int - '0' as int)
    }
}

/// A number in decimal reads back as that number; it has digits only, at
/// least one, and no zero in front of others.
pub proof fn law_decimal_reads_back(n: nat)
    ensures
        number_of(decimal_digits(n)) == n,
        decimal_digits(n).len() > 0,
        forall|i: int|
            0 <= i < decimal_digits(n).len() ==> '0' as int <= (
            #[trigger] decimal_digits(n)[i]) as int <= '9' as int,
        n > 0 ==> decimal_digits(n)[0] != '0',
    decreases n,
{
    let digits = decimal_digits(n);
    if n >= 10 {
        law_decimal_reads_back(n / 10);
        assert(digits.drop_last() == decimal_digits(n / 10));
    } else {
        assert(digits.drop_last() == Seq::<char>::empty());
        assert(number_of(digits.drop_last()) == 0);
    }
}

} // verus!
