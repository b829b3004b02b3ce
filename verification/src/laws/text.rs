//! Texts.

use crate::text::{
    ascii_lowered, blank, contains, decimal, decimal_text, digit, ends_with, has_suffix, is_blank, is_white_space,
    occurs_at, occurs_in, strip, strip_end, strip_end_of, strip_start, to_ascii_lower, trim, trimmed, truncate,
    truncated, CharSet,
};
use vstd::prelude::*;

verus! {

/// What is left of a text after stripping is a part of it.
proof fn strip_start_part(s: Seq<char>, set: CharSet)
    ensures
        strip_start(s, set).len() <= s.len(),
        strip_start(s, set) == s.skip(s.len() - strip_start(s, set).len()),
        strip_start(s, set).len() > 0 ==> !set.has(strip_start(s, set)[0]),
        forall|i: int| 0 <= i < s.len() - strip_start(s, set).len() ==> set.has(#[trigger] s[i]),
    decreases s.len(),
{
    if s.len() > 0 && set.has(s[0]) {
        let t = s.drop_first();
        strip_start_part(t, set);
        assert(t.skip(t.len() - strip_start(t, set).len()) =~= s.skip(s.len() - strip_start(t, set).len()));
        assert forall|i: int| 0 <= i < s.len() - strip_start(s, set).len() implies set.has(#[trigger] s[i]) by {
            if i > 0 {
                assert(s[i] == t[i - 1]);
            }
        }
    } else {
        assert(s.skip(0) =~= s);
    }
}

pub(crate) proof fn strip_end_part(s: Seq<char>, set: CharSet)
    ensures
        strip_end(s, set).len() <= s.len(),
        strip_end(s, set) == s.take(strip_end(s, set).len() as int),
        strip_end(s, set).len() > 0 ==> !set.has(strip_end(s, set).last()),
        forall|i: int| strip_end(s, set).len() <= i < s.len() ==> set.has(#[trigger] s[i]),
    decreases s.len(),
{
    if s.len() > 0 && set.has(s.last()) {
        let t = s.drop_last();
        strip_end_part(t, set);
        assert(t.take(strip_end(t, set).len() as int) =~= s.take(strip_end(t, set).len() as int));
        assert forall|i: int| strip_end(s, set).len() <= i < s.len() implies set.has(#[trigger] s[i]) by {
            if i < s.len() - 1 {
                assert(s[i] == t[i]);
            }
        }
    } else {
        assert(s.take(s.len() as int) =~= s);
    }
}

/// Stripping both ends leaves a stretch of the text that neither begins nor ends with a character
/// of the set.
pub proof fn stripping_leaves_the_middle(s: Seq<char>, set: CharSet)
    ensures
        exists|i: int, j: int|
            0 <= i <= j <= s.len() && #[trigger] s.subrange(i, j) == strip(s, set) && (forall|k: int|
                0 <= k < i || j <= k < s.len() ==> set.has(#[trigger] s[k])),
        strip(s, set).len() > 0 ==> !set.has(strip(s, set)[0]) && !set.has(strip(s, set).last()),
{
    let a = strip_start(s, set);
    let b = strip(s, set);
    strip_start_part(s, set);
    strip_end_part(a, set);
    let i = s.len() - a.len();
    let j = i + b.len();
    assert(s.subrange(i, j) =~= b);
    assert forall|k: int| 0 <= k < i || j <= k < s.len() implies set.has(#[trigger] s[k]) by {
        if k >= j {
            assert(a[k - i] == s[k]);
        }
    }
}

/// Stripping a second time changes nothing.
pub proof fn stripping_twice_is_stripping_once(s: Seq<char>, set: CharSet)
    ensures
        strip(strip(s, set), set) == strip(s, set),
{
    stripping_leaves_the_middle(s, set);
}

/// A text is blank exactly if it holds nothing but white space.
pub proof fn blank_is_all_white_space(s: Seq<char>)
    ensures
        is_blank(s) <==> (forall|i: int| 0 <= i < s.len() ==> is_white_space(#[trigger] s[i])),
{
    let set = CharSet::WhiteSpace;
    stripping_leaves_the_middle(s, set);
    if forall|i: int| 0 <= i < s.len() ==> is_white_space(#[trigger] s[i]) {
        let (i, j) = choose|i: int, j: int|
            0 <= i <= j <= s.len() && #[trigger] s.subrange(i, j) == strip(s, set);
        if strip(s, set).len() > 0 {
            assert(s.subrange(i, j)[0] == s[i]);
        }
    } else {
        let k = choose|k: int| 0 <= k < s.len() && !is_white_space(#[trigger] s[k]);
        let (i, j) = choose|i: int, j: int|
            0 <= i <= j <= s.len() && #[trigger] s.subrange(i, j) == strip(s, set) && (forall|k: int|
                0 <= k < i || j <= k < s.len() ==> set.has(#[trigger] s[k]));
        assert(set.has(s[k]) == is_white_space(s[k]));
        assert(i <= k < j);
    }
}

/// Truncating a second time changes nothing.
pub proof fn truncating_twice_is_truncating_once(s: Seq<char>, max: nat)
    ensures
        truncated(truncated(s, max), max) == truncated(s, max),
{
    reveal_strlit("...");
    if s.len() > max {
        assert(truncated(s, max).take(max as int) =~= s.take(max as int));
    }
}

/// A truncated text is at most three characters longer than the limit, and as far as the limit
/// goes it is the text.
pub proof fn truncating_keeps_the_beginning(s: Seq<char>, max: nat)
    ensures
        truncated(s, max).len() <= max + 3,
        s.len() <= max ==> truncated(s, max) == s,
        s.len() > max ==> truncated(s, max).take(max as int) == s.take(max as int),
{
    reveal_strlit("...");
    if s.len() > max {
        assert(truncated(s, max).take(max as int) =~= s.take(max as int));
    }
}

/// Two numbers with the same decimal notation are the same.
pub proof fn decimal_is_injective(m: nat, n: nat)
    requires
        decimal(m) == decimal(n),
    ensures
        m == n,
    decreases m,
{
    decimal_has_digits(m);
    decimal_has_digits(n);
    assert(decimal(m).last() == digit(m % 10));
    assert(decimal(n).last() == digit(n % 10));
    if m >= 10 && n >= 10 {
        assert(decimal(m).drop_last() =~= decimal(m / 10));
        assert(decimal(n).drop_last() =~= decimal(n / 10));
        decimal_is_injective(m / 10, n / 10);
    }
}

/// The decimal notation of a number is made of digits, and of more than one exactly if the number
/// is 10 or more.
pub(crate) proof fn decimal_has_digits(n: nat)
    ensures
        decimal(n).len() >= 1,
        decimal(n).len() == 1 <==> n < 10,
        forall|i: int| 0 <= i < decimal(n).len() ==> '0' <= #[trigger] decimal(n)[i] <= '9',
    decreases n,
{
    if n >= 10 {
        decimal_has_digits(n / 10);
    }
}

/// `s` up to `max` characters, and three full stops behind them if that is not all of `s`.
pub open spec fn cut(s: Seq<char>, max: nat) -> Seq<char> {
    if s.len() <= max {
        s
    } else {
        s.take(max as int) + seq!['.', '.', '.']
    }
}

/// To truncate is to cut.
pub proof fn truncating_is_cutting(s: Seq<char>, max: nat)
    ensures
        truncated(s, max) == cut(s, max),
{
    reveal_strlit("...");
    assert("..."@ =~= seq!['.', '.', '.']);
}

/// A set of characters holds what it is made of.
pub proof fn sets_hold_what_they_are_made_of(c: char, d: char)
    ensures
        CharSet::Only(d).has(c) <==> c == d,
        CharSet::WhiteSpace.has(c) <==> is_white_space(c),
        is_white_space(c) <==> (9 <= c as int <= 13 || c as int == 32 || c as int == 133 || c as int == 160 || c as int
            == 5760 || 8192 <= c as int <= 8202 || c as int == 8232 || c as int == 8233 || c as int == 8239 || c as int
            == 8287 || c as int == 12288),
{
}

/// To trim a text is to leave out the white space around it, and nothing else: what is left is a
/// stretch of the text, what is left out is white space, and what is left begins and ends with
/// something else. A text is blank if nothing is left, which is if it is all white space.
pub proof fn trimming_leaves_out_white_space(s: &str, r: &str, b: bool)
    requires
        call_ensures(trim, (s,), r),
        call_ensures(blank, (s,), b),
    ensures
        r@ == trimmed(s@),
        exists|i: int, j: int|
            0 <= i <= j <= s@.len() && #[trigger] s@.subrange(i, j) == r@ && (forall|k: int|
                0 <= k < i || j <= k < s@.len() ==> is_white_space(#[trigger] s@[k])),
        r@.len() > 0 ==> !is_white_space(r@[0]) && !is_white_space(r@.last()),
        b <==> (forall|i: int| 0 <= i < s@.len() ==> is_white_space(#[trigger] s@[i])),
        b <==> r@.len() == 0,
{
    stripping_leaves_the_middle(s@, CharSet::WhiteSpace);
    blank_is_all_white_space(s@);
    let (i, j) = choose|i: int, j: int|
        0 <= i <= j <= s@.len() && #[trigger] s@.subrange(i, j) == strip(s@, CharSet::WhiteSpace) && (forall|k: int|
            0 <= k < i || j <= k < s@.len() ==> CharSet::WhiteSpace.has(#[trigger] s@[k]));
    assert(s@.subrange(i, j) == r@);
    assert forall|k: int| 0 <= k < i || j <= k < s@.len() implies is_white_space(#[trigger] s@[k]) by {
        assert(CharSet::WhiteSpace.has(s@[k]));
    }
}

/// Stripping the end of a text leaves its beginning: what is left out belongs to the set, and what is
/// left does not end with a character of it.
pub proof fn stripping_the_end_leaves_the_beginning(s: &str, set: CharSet, r: &str)
    requires
        call_ensures(strip_end_of, (s, set), r),
    ensures
        r@.len() <= s@.len(),
        s@.take(r@.len() as int) == r@,
        forall|k: int| r@.len() <= k < s@.len() ==> set.has(#[trigger] s@[k]),
        r@.len() > 0 ==> !set.has(r@.last()),
{
    strip_end_part(s@, set);
    assert(s@.take(r@.len() as int) =~= r@);
}

/// A text holds another if it is that text with something before and something behind it, and ends
/// with another if it is that text with something before it.
pub proof fn searching_finds_what_is_there(s: &str, needle: &str, held: bool, ends: bool)
    requires
        call_ensures(contains, (s, needle), held),
        call_ensures(ends_with, (s, needle), ends),
    ensures
        held <==> exists|a: Seq<char>, b: Seq<char>| s@ == #[trigger] (a + needle@ + b),
        ends <==> exists|a: Seq<char>| s@ == #[trigger] (a + needle@),
        held == occurs_in(needle@, s@),
        ends == has_suffix(s@, needle@),
{
    let n = needle@;
    if held {
        let i = choose|i: int| occurs_at(n, s@, i);
        let (a, b) = (s@.take(i), s@.skip(i + n.len()));
        assert(a + n + b =~= s@) by {
            assert(s@.subrange(i, i + n.len()) == n);
            assert forall|k: int| 0 <= k < n.len() implies s@[i + k] == n[k] by {
                assert(s@.subrange(i, i + n.len())[k] == n[k]);
            }
        }
    }
    if exists|a: Seq<char>, b: Seq<char>| s@ == #[trigger] (a + n + b) {
        let (a, b) = choose|a: Seq<char>, b: Seq<char>| s@ == #[trigger] (a + n + b);
        assert(s@.subrange(a.len() as int, a.len() as int + n.len()) =~= n);
        assert(occurs_at(n, s@, a.len() as int));
    }
    if ends {
        let i = s@.len() - n.len();
        let a = s@.take(i);
        assert(a + n =~= s@) by {
            assert(s@.subrange(i, i + n.len()) == n);
            assert forall|k: int| 0 <= k < n.len() implies s@[i + k] == n[k] by {
                assert(s@.subrange(i, i + n.len())[k] == n[k]);
            }
        }
    }
    if exists|a: Seq<char>| s@ == #[trigger] (a + n) {
        let a = choose|a: Seq<char>| s@ == #[trigger] (a + n);
        assert(s@.subrange(a.len() as int, a.len() as int + n.len()) =~= n);
    }
}

/// Lower case in ASCII changes each capital into its small letter, and nothing else.
pub proof fn lower_case_changes_capitals_alone(s: &str, r: String)
    requires
        call_ensures(to_ascii_lower, (s,), r),
    ensures
        r@ == ascii_lowered(s@),
        r@.len() == s@.len(),
        forall|i: int|
            0 <= i < s@.len() ==> #[trigger] r@[i] == (if 'A' <= s@[i] <= 'Z' {
                ((s@[i] as u8) + 32) as char
            } else {
                s@[i]
            }),
{
}

/// A text is cut if it is longer than the limit, else it is kept.
pub proof fn truncating_cuts(s: &str, max: usize, r: String)
    requires
        call_ensures(truncate, (s, max), r),
    ensures
        r@ == cut(s@, max as nat),
{
    truncating_is_cutting(s@, max as nat);
}

/// The number that a text of digits stands for.
pub open spec fn number_of(s: Seq<char>) -> int
    decreases s.len(),
{
    if s.len() == 0 {
        0
    } else {
        number_of(s.drop_last()) * 10 + (s.last() as int - 48)
    }
}

proof fn decimals_stand_for_their_number(n: nat)
    ensures
        number_of(decimal(n)) == n,
        decimal(n).len() > 0,
        forall|i: int| 0 <= i < decimal(n).len() ==> '0' <= #[trigger] decimal(n)[i] <= '9',
        n > 0 ==> decimal(n)[0] != '0',
    decreases n,
{
    reveal_with_fuel(number_of, 2);
    if n < 10 {
        assert(decimal(n).drop_last() =~= Seq::empty());
    } else {
        decimals_stand_for_their_number(n / 10);
        assert(decimal(n).drop_last() =~= decimal(n / 10));
    }
}

/// The decimal notation of a number is made of digits, does not begin with a 0 unless it is that of 0,
/// and stands for the number.
pub proof fn decimals_are_read_back(n: u64, r: String)
    requires
        call_ensures(decimal_text, (n,), r),
    ensures
        r@ == decimal(n as nat),
        number_of(r@) == n,
        r@.len() > 0,
        forall|i: int| 0 <= i < r@.len() ==> '0' <= #[trigger] r@[i] <= '9',
        n > 0 ==> r@[0] != '0',
        n == 0 ==> r@ == seq!['0'],
{
    decimals_stand_for_their_number(n as nat);
}

}
