//! Text helpers, specified over the characters of a string.

use vstd::prelude::*;

verus! {

/// `From::from` on a value that already has the wanted type hands it back.
pub assume_specification<Kept>[ <Kept as std::convert::From<Kept>>::from ](value: Kept) -> (r: Kept)
    ensures
        r == value,
;

/// `String::from` on a string slice copies its characters.
pub assume_specification<'a>[ <String as From<&'a str>>::from ](s: &str) -> (r: String)
    ensures
        r@ == s@,
;

/// The characters that carry the Unicode `White_Space` property.
pub open spec fn is_white_space(c: char) -> bool {
    ||| '\u{9}' <= c <= '\u{d}'
    ||| c == ' '
    ||| c == '\u{85}'
    ||| c == '\u{a0}'
    ||| c == '\u{1680}'
    ||| '\u{2000}' <= c <= '\u{200a}'
    ||| c == '\u{2028}'
    ||| c == '\u{2029}'
    ||| c == '\u{202f}'
    ||| c == '\u{205f}'
    ||| c == '\u{3000}'
}

/// `s` without its leading white space.
pub open spec fn trimmed_start(s: Seq<char>) -> Seq<char>
    decreases s.len(),
{
    if s.len() > 0 && is_white_space(s[0]) {
        trimmed_start(s.skip(1))
    } else {
        s
    }
}

/// `s` without its trailing white space.
pub open spec fn trimmed_end(s: Seq<char>) -> Seq<char>
    decreases s.len(),
{
    if s.len() > 0 && is_white_space(s.last()) {
        trimmed_end(s.drop_last())
    } else {
        s
    }
}

/// `s` without white space at either end.
pub open spec fn trimmed(s: Seq<char>) -> Seq<char> {
    trimmed_end(trimmed_start(s))
}

/// `s` without any `c` at its end.
pub open spec fn without_trailing(s: Seq<char>, c: char) -> Seq<char>
    decreases s.len(),
{
    if s.len() > 0 && s.last() == c {
        without_trailing(s.drop_last(), c)
    } else {
        s
    }
}

/// The number of characters that stand before the first line feed, or the
/// length of `s` where there is none.
pub open spec fn line_length(s: Seq<char>) -> nat
    decreases s.len(),
{
    if s.len() == 0 || s[0] == '\n' {
        0
    } else {
        1 + line_length(s.skip(1))
    }
}

/// The items one after the other, with `separator` between neighbours.
pub open spec fn joined(items: Seq<Seq<char>>, separator: Seq<char>) -> Seq<char>
    decreases items.len(),
{
    if items.len() == 0 {
        Seq::empty()
    } else if items.len() == 1 {
        items[0]
    } else {
        joined(items.drop_last(), separator) + separator + items.last()
    }
}

/// The decimal digit `d`.
pub open spec fn digit(d: nat) -> char {
    (48 + d % 10) as char
}

/// `n` in decimal notation, without leading zeros.
pub open spec fn decimal_digits(n: nat) -> Seq<char>
    decreases n,
{
    if n < 10 {
        seq![digit(n)]
    } else {
        decimal_digits(n / 10).push(digit(n % 10))
    }
}

pub proof fn lemma_trimmed_start_skips(s: Seq<char>, n: int)
    requires
        0 <= n <= s.len(),
        forall|i: int| 0 <= i < n ==> is_white_space(#[trigger] s[i]),
        n < s.len() ==> !is_white_space(s[n]),
    ensures
        trimmed_start(s) == s.skip(n),
    decreases n,
{
    if n > 0 {
        assert(is_white_space(s[0]));
        assert forall|i: int| 0 <= i < n - 1 implies is_white_space(#[trigger] s.skip(1)[i]) by {
            assert(s.skip(1)[i] == s[i + 1]);
        }
        lemma_trimmed_start_skips(s.skip(1), n - 1);
        assert(s.skip(1).skip(n - 1) =~= s.skip(n));
    } else {
        assert(s.skip(0) =~= s);
    }
}

pub proof fn lemma_trimmed_end_takes(s: Seq<char>, n: int)
    requires
        0 <= n <= s.len(),
        forall|i: int| n <= i < s.len() ==> is_white_space(#[trigger] s[i]),
        n > 0 ==> !is_white_space(s[n - 1]),
    ensures
        trimmed_end(s) == s.take(n),
    decreases s.len() - n,
{
    if n < s.len() {
        assert(is_white_space(s[s.len() - 1]));
        lemma_trimmed_end_takes(s.drop_last(), n);
        assert(s.drop_last().take(n) =~= s.take(n));
    } else {
        assert(s.take(n) =~= s);
    }
}

pub proof fn lemma_without_trailing_takes(s: Seq<char>, c: char, n: int)
    requires
        0 <= n <= s.len(),
        forall|i: int| n <= i < s.len() ==> (#[trigger] s[i]) == c,
        n > 0 ==> s[n - 1] != c,
    ensures
        without_trailing(s, c) == s.take(n),
    decreases s.len() - n,
{
    if n < s.len() {
        assert(s[s.len() - 1] == c);
        lemma_without_trailing_takes(s.drop_last(), c, n);
        assert(s.drop_last().take(n) =~= s.take(n));
    } else {
        assert(s.take(n) =~= s);
    }
}

pub proof fn lemma_without_trailing_idempotent(s: Seq<char>, c: char)
    ensures
        without_trailing(without_trailing(s, c), c) == without_trailing(s, c),
        without_trailing(s, c).len() > 0 ==> without_trailing(s, c).last() != c,
        without_trailing(s, c).is_prefix_of(s),
    decreases s.len(),
{
    if s.len() > 0 && s.last() == c {
        lemma_without_trailing_idempotent(s.drop_last(), c);
    }
}

pub proof fn lemma_line_length(s: Seq<char>)
    ensures
        line_length(s) <= s.len(),
        forall|i: int| 0 <= i < line_length(s) ==> (#[trigger] s[i]) != '\n',
        line_length(s) < s.len() ==> s[line_length(s) as int] == '\n',
    decreases s.len(),
{
    if s.len() > 0 && s[0] != '\n' {
        lemma_line_length(s.skip(1));
        assert forall|i: int| 0 <= i < line_length(s) implies (#[trigger] s[i]) != '\n' by {
            if i > 0 {
                assert(s[i] == s.skip(1)[i - 1]);
            }
        }
    }
}

pub proof fn lemma_line_length_is(s: Seq<char>, n: int)
    requires
        0 <= n <= s.len(),
        forall|i: int| 0 <= i < n ==> (#[trigger] s[i]) != '\n',
        n < s.len() ==> s[n] == '\n',
    ensures
        line_length(s) == n,
{
    lemma_line_length(s);
    if line_length(s) < n {
        assert(s[line_length(s) as int] != '\n');
    }
}

/// Whether `c` carries the Unicode `White_Space` property.
pub fn white_space(c: char) -> (r: bool)
    ensures
        r == is_white_space(c),
{
    ('\u{9}' <= c && c <= '\u{d}') || c == ' ' || c == '\u{85}' || c == '\u{a0}' || c == '\u{1680}'
        || ('\u{2000}' <= c && c <= '\u{200a}') || c == '\u{2028}' || c == '\u{2029}' || c
        == '\u{202f}' || c == '\u{205f}' || c == '\u{3000}'
}

/// Whether the two texts hold the same characters.
pub fn str_eq(a: &str, b: &str) -> (r: bool)
    ensures
        r == (a@ == b@),
{
    a.to_owned() == b.to_owned()
}

/// `s` without white space at either end.
pub fn trim(s: &str) -> (r: String)
    ensures
        r@ == trimmed(s@),
{
    let length: usize = s.unicode_len();
    let mut start: usize = 0;
    let mut end: usize = 0;
    let mut seen: usize = 0;
    for c in it: s.chars()
        invariant
            it.seq() == s@,
            seen == it.index(),
            length == s@.len(),
            start <= seen,
            end <= seen,
            forall|i: int| 0 <= i < start ==> is_white_space(#[trigger] s@[i]),
            start < seen ==> !is_white_space(s@[start as int]) && start < end,
            start == seen ==> end == 0,
            forall|i: int| end <= i < seen ==> is_white_space(#[trigger] s@[i]),
            end > 0 ==> !is_white_space(s@[end - 1]),
    {
        if white_space(c) {
            if start == seen {
                start = start + 1;
            }
        } else {
            end = seen + 1;
        }
        seen = seen + 1;
    }
    if end < start {
        end = start;
    }
    proof {
        lemma_trimmed_start_skips(s@, start as int);
        let rest = s@.skip(start as int);
        assert forall|i: int| end - start <= i < rest.len() implies is_white_space(
            #[trigger] rest[i],
        ) by {
            assert(rest[i] == s@[i + start]);
        }
        lemma_trimmed_end_takes(rest, end - start);
        assert(rest.take(end - start) =~= s@.subrange(start as int, end as int));
    }
    s.substring_char(start, end).to_owned()
}

/// `s` without any `c` at its end.
pub fn trim_end_matches(s: &str, c: char) -> (r: String)
    ensures
        r@ == without_trailing(s@, c),
{
    let length: usize = s.unicode_len();
    let mut end: usize = 0;
    let mut seen: usize = 0;
    for x in it: s.chars()
        invariant
            it.seq() == s@,
            seen == it.index(),
            length == s@.len(),
            end <= seen,
            forall|i: int| end <= i < seen ==> (#[trigger] s@[i]) == c,
            end > 0 ==> s@[end - 1] != c,
    {
        seen = seen + 1;
        if x != c {
            end = seen;
        }
    }
    proof {
        lemma_without_trailing_takes(s@, c, end as int);
    }
    s.substring_char(0, end).to_owned()
}

/// Whether `s` begins with `prefix`.
pub fn starts_with(s: &str, prefix: &str) -> (r: bool)
    ensures
        r == prefix@.is_prefix_of(s@),
{
    let n: usize = prefix.unicode_len();
    if s.unicode_len() < n {
        return false;
    }
    let head = s.substring_char(0, n);
    proof {
        assert(s@.take(n as int) =~= s@.subrange(0, n as int));
        if prefix@.is_prefix_of(s@) {
            assert(prefix@ =~= s@.subrange(0, n as int));
        }
    }
    str_eq(head, prefix)
}

/// What follows `prefix` in `s`, where `s` begins with it.
pub fn strip_prefix(s: &str, prefix: &str) -> (r: Option<String>)
    ensures
        r is Some <==> prefix@.is_prefix_of(s@),
        r matches Some(rest) ==> rest@ == s@.skip(prefix@.len() as int),
{
    if starts_with(s, prefix) {
        let n: usize = prefix.unicode_len();
        let length: usize = s.unicode_len();
        let rest = s.substring_char(n, length);
        assert(rest@ =~= s@.skip(n as int));
        Some(rest.to_owned())
    } else {
        None
    }
}

/// The first line of `s` without its line feed, and what follows the line
/// feed; `None` where `s` holds no line feed.
pub fn split_line(s: &str) -> (r: Option<(String, String)>)
    ensures
        r is Some <==> line_length(s@) < s@.len(),
        r matches Some(parts) ==> {
            &&& parts.0@ == s@.take(line_length(s@) as int)
            &&& parts.1@ == s@.skip(line_length(s@) as int + 1)
        },
{
    let length: usize = s.unicode_len();
    let mut seen: usize = 0;
    for c in it: s.chars()
        invariant
            it.seq() == s@,
            seen == it.index(),
            length == s@.len(),
            forall|i: int| 0 <= i < seen ==> (#[trigger] s@[i]) != '\n',
    {
        if c == '\n' {
            proof {
                lemma_line_length_is(s@, seen as int);
            }
            let line = s.substring_char(0, seen);
            let rest = s.substring_char(seen + 1, length);
            assert(line@ =~= s@.take(seen as int));
            assert(rest@ =~= s@.skip(seen as int + 1));
            return Some((line.to_owned(), rest.to_owned()));
        }
        seen = seen + 1;
    }
    proof {
        lemma_line_length_is(s@, s@.len() as int);
    }
    None
}

/// The items one after the other, with `separator` between neighbours.
pub fn join(items: &Vec<String>, separator: &str) -> (r: String)
    ensures
        r@ == joined(items.deep_view(), separator@),
{
    let ghost views = items.deep_view();
    let mut out = String::new();
    let mut i: usize = 0;
    while i < items.len()
        invariant
            i <= items@.len(),
            views == items.deep_view(),
            out@ == joined(views.take(i as int), separator@),
        decreases items@.len() - i,
    {
        proof {
            let next = views.take(i as int + 1);
            assert(next.drop_last() =~= views.take(i as int));
            assert(next.last() == items@[i as int]@);
        }
        if i > 0 {
            out.append(separator);
        }
        out.append(items[i].as_str());
        i = i + 1;
        assert(out@ =~= joined(views.take(i as int), separator@));
    }
    assert(views.take(i as int) =~= views);
    out
}

/// The digit `d` as text.
fn digit_text(d: usize) -> (r: &'static str)
    requires
        d < 10,
    ensures
        r@ == seq![digit(d as nat)],
{
    proof {
        reveal_strlit("0");
        reveal_strlit("1");
        reveal_strlit("2");
        reveal_strlit("3");
        reveal_strlit("4");
        reveal_strlit("5");
        reveal_strlit("6");
        reveal_strlit("7");
        reveal_strlit("8");
        reveal_strlit("9");
    }
    let r = if d == 0 {
        "0"
    } else if d == 1 {
        "1"
    } else if d == 2 {
        "2"
    } else if d == 3 {
        "3"
    } else if d == 4 {
        "4"
    } else if d == 5 {
        "5"
    } else if d == 6 {
        "6"
    } else if d == 7 {
        "7"
    } else if d == 8 {
        "8"
    } else {
        "9"
    };
    assert(r@ =~= seq![digit(d as nat)]);
    r
}

/// `n` in decimal notation.
pub fn decimal(n: usize) -> (r: String)
    ensures
        r@ == decimal_digits(n as nat),
    decreases n,
{
    if n < 10 {
        digit_text(n).to_owned()
    } else {
        let mut out = decimal(n / 10);
        out.append(digit_text(n % 10));
        assert(out@ =~= decimal_digits(n as nat));
        out
    }
}

} // verus!
