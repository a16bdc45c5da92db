//! What holds of the text helpers on every text.

use crate::text::{
    decimal_digits, is_white_space, joined, lemma_line_length_is, lemma_trimmed_end_takes,
    lemma_trimmed_start_skips, lemma_without_trailing_takes, line_length, trimmed,
    without_trailing,
};
use vstd::prelude::*;

verus! {

pub open spec fn all_white_space(s: Seq<char>) -> bool {
    forall|i: int| 0 <= i < s.len() ==> is_white_space(#[trigger] s[i])
}

/// Begins and ends with something else than white space, or is empty.
pub open spec fn is_bare(s: Seq<char>) -> bool {
    s.len() > 0 ==> !is_white_space(s[0]) && !is_white_space(s.last())
}

/// Trimming takes the white space off both ends of a text and leaves what stands
/// between, white space in its middle included.
pub proof fn trimming_leaves_what_stands_between(
    before: Seq<char>,
    inner: Seq<char>,
    after: Seq<char>,
)
    requires
        all_white_space(before),
        is_bare(inner),
        all_white_space(after),
    ensures
        trimmed(before + inner + after) == inner,
{
    let s = before + inner + after;
    let n = before.len() as int;
    if inner.len() > 0 {
        assert forall|i: int| 0 <= i < n implies is_white_space(#[trigger] s[i]) by {
            assert(s[i] == before[i]);
        }
        assert(s[n] == inner[0]);
        lemma_trimmed_start_skips(s, n);
        let rest = s.skip(n);
        let m = inner.len() as int;
        assert forall|i: int| m <= i < rest.len() implies is_white_space(#[trigger] rest[i]) by {
            assert(rest[i] == after[i - m]);
        }
        assert(rest[m - 1] == inner.last());
        lemma_trimmed_end_takes(rest, m);
        assert(rest.take(m) =~= inner);
    } else {
        assert forall|i: int| 0 <= i < s.len() implies is_white_space(#[trigger] s[i]) by {
            if i < n {
                assert(s[i] == before[i]);
            } else {
                assert(s[i] == after[i - n]);
            }
        }
        lemma_trimmed_start_skips(s, s.len() as int);
        assert(s.skip(s.len() as int) =~= Seq::empty());
        assert(trimmed(s) =~= inner);
    }
}

/// Whatever stands before the run of `c` at the end of a text is left.
pub proof fn only_the_run_at_the_end_is_dropped(s: Seq<char>, run: Seq<char>, c: char)
    requires
        s.len() > 0 ==> s.last() != c,
        forall|i: int| 0 <= i < run.len() ==> (#[trigger] run[i]) == c,
    ensures
        without_trailing(s + run, c) == s,
{
    let all = s + run;
    assert forall|i: int| s.len() <= i < all.len() implies (#[trigger] all[i]) == c by {
        assert(all[i] == run[i - s.len()]);
    }
    lemma_without_trailing_takes(all, c, s.len() as int);
    assert(all.take(s.len() as int) =~= s);
}

/// A line ends at its line feed.
pub proof fn a_line_ends_at_its_line_feed(line: Seq<char>, rest: Seq<char>)
    requires
        forall|i: int| 0 <= i < line.len() ==> (#[trigger] line[i]) != '\n',
    ensures
        line_length(line) == line.len(),
        line_length(line + seq!['\n'] + rest) == line.len(),
        (line + seq!['\n'] + rest).take(line.len() as int) == line,
        (line + seq!['\n'] + rest).skip(line.len() as int + 1) == rest,
{
    let all = line + seq!['\n'] + rest;
    assert forall|i: int| 0 <= i < line.len() implies (#[trigger] all[i]) != '\n' by {
        assert(all[i] == line[i]);
    }
    lemma_line_length_is(line, line.len() as int);
    lemma_line_length_is(all, line.len() as int);
    assert(all.take(line.len() as int) =~= line);
    assert(all.skip(line.len() as int + 1) =~= rest);
}

/// Two lists of items are joined as one list is: each part as it stands, with one
/// separator between. One item is joined to itself, and no item to nothing.
pub proof fn parts_are_joined_by_one_separator(
    a: Seq<Seq<char>>,
    b: Seq<Seq<char>>,
    item: Seq<char>,
    separator: Seq<char>,
)
    ensures
        joined(Seq::empty(), separator) == Seq::<char>::empty(),
        joined(seq![item], separator) == item,
        a.len() > 0 && b.len() > 0 ==> joined(a + b, separator) == joined(a, separator) + separator
            + joined(b, separator),
    decreases b.len(),
{
    if a.len() > 0 && b.len() > 0 {
        assert((a + b).drop_last() =~= a + b.drop_last());
        assert((a + b).last() == b.last());
        if b.len() == 1 {
            assert(a + b.drop_last() =~= a);
            assert(joined(b, separator) == b.last());
        } else {
            parts_are_joined_by_one_separator(a, b.drop_last(), item, separator);
            assert(joined(a + b, separator) =~= joined(a, separator) + separator + joined(
                b,
                separator,
            ));
        }
    }
}

/// The number that decimal digits stand for.
pub open spec fn number_read(digits: Seq<char>) -> nat
    decreases digits.len(),
{
    if digits.len() == 0 {
        0
    } else {
        10 * number_read(digits.drop_last()) + (digits.last() as nat - '0' as nat) as nat
    }
}

/// The digits of a number read back as the number; there are no others among
/// them, and no zero leads them but that of zero itself.
pub proof fn digits_read_back_as_the_number(n: nat)
    ensures
        number_read(decimal_digits(n)) == n,
        decimal_digits(n).len() > 0,
        forall|i: int|
            0 <= i < decimal_digits(n).len() ==> '0' <= #[trigger] decimal_digits(n)[i] <= '9',
        n > 0 ==> decimal_digits(n)[0] != '0',
    decreases n,
{
    reveal_with_fuel(number_read, 2);
    if n >= 10 {
        digits_read_back_as_the_number(n / 10);
        let head = decimal_digits(n / 10);
        assert(decimal_digits(n).drop_last() =~= head);
        assert forall|i: int| 0 <= i < decimal_digits(n).len() implies '0'
            <= #[trigger] decimal_digits(n)[i] <= '9' by {
            if i < head.len() {
                assert(decimal_digits(n)[i] == head[i]);
            }
        }
        assert(decimal_digits(n)[0] == head[0]);
    } else {
        assert(seq![crate::text::digit(n)].drop_last() =~= Seq::empty());
    }
}

} // verus!
