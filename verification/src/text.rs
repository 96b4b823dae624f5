//! Verified text utilities: substring search over character sequences and
//! decimal rendering of unsigned integers.

use vstd::prelude::*;

verus! {

/// `needle` occurs as a contiguous run of characters inside `haystack`.
pub open spec fn contains_seq(haystack: Seq<char>, needle: Seq<char>) -> bool {
    exists|i: int|
        0 <= i <= haystack.len() - needle.len() && #[trigger] haystack.subrange(
            i,
            i + needle.len(),
        ) == needle
}

/// Whether `haystack` matches `needle` character by character at offset `at`.
fn matches_at(haystack: &str, needle: &str, at: usize) -> (matched: bool)
    requires
        at + needle@.len() <= haystack@.len() <= usize::MAX,
    ensures
        matched == (haystack@.subrange(at as int, at + needle@.len()) == needle@),
{
    let needle_len = needle.unicode_len();
    let mut k: usize = 0;
    while k < needle_len
        invariant
            k <= needle_len,
            needle_len == needle@.len(),
            at + needle_len <= haystack@.len() <= usize::MAX,
            forall|m: int| 0 <= m < k ==> haystack@[at + m] == needle@[m],
        decreases needle_len - k,
    {
        if haystack.get_char(at + k) != needle.get_char(k) {
            assert(haystack@.subrange(at as int, at + needle@.len())[k as int]
                != needle@[k as int]);
            return false;
        }
        k += 1;
    }
    assert(haystack@.subrange(at as int, at + needle@.len()) =~= needle@);
    true
}

/// Substring search: decides [`contains_seq`] on the views of two string
/// slices.
pub fn str_contains(haystack: &str, needle: &str) -> (found: bool)
    ensures
        found == contains_seq(haystack@, needle@),
{
    let haystack_len = haystack.unicode_len();
    let needle_len = needle.unicode_len();
    if needle_len > haystack_len {
        return false;
    }
    if needle_len == 0 {
        proof {
            assert(haystack@.subrange(0, 0 + needle@.len() as int) =~= needle@);
        }
        return true;
    }
    let mut i: usize = 0;
    while i <= haystack_len - needle_len
        invariant
            haystack_len == haystack@.len(),
            needle_len == needle@.len(),
            1 <= needle_len <= haystack_len,
            i <= haystack_len - needle_len + 1,
            forall|j: int|
                0 <= j < i ==> #[trigger] haystack@.subrange(j, j + needle@.len()) != needle@,
        decreases haystack_len - needle_len + 1 - i,
    {
        if matches_at(haystack, needle, i) {
            return true;
        }
        i += 1;
    }
    false
}

/// The character for the decimal digit `d`.
pub open spec fn digit_char(d: int) -> char {
    if d == 0 {
        '0'
    } else if d == 1 {
        '1'
    } else if d == 2 {
        '2'
    } else if d == 3 {
        '3'
    } else if d == 4 {
        '4'
    } else if d == 5 {
        '5'
    } else if d == 6 {
        '6'
    } else if d == 7 {
        '7'
    } else if d == 8 {
        '8'
    } else {
        '9'
    }
}

/// The decimal representation of `n`, most significant digit first, with no
/// leading zeros (a single `'0'` for zero itself).
pub open spec fn decimal_digits(n: nat) -> Seq<char>
    decreases n,
{
    if n < 10 {
        seq![digit_char(n as int)]
    } else {
        decimal_digits(n / 10).push(digit_char((n % 10) as int))
    }
}

/// The string slice for the single decimal digit `d`.
fn digit_str(d: u64) -> (s: &'static str)
    requires
        d < 10,
    ensures
        s@ == seq![digit_char(d as int)],
{
    proof {
        reveal_strlit("0");
        reveal_strlit("1");
        reveal_strlit("2");
        reveal_strlit("3");
        reveal_strlit("4");
        reveal_strlit("5");
        reveal_strlit("6");
        reveal_strlit("7");
        reveal_strlit("8");
        reveal_strlit("9");
    }
    let s: &'static str = if d == 0 {
        "0"
    } else if d == 1 {
        "1"
    } else if d == 2 {
        "2"
    } else if d == 3 {
        "3"
    } else if d == 4 {
        "4"
    } else if d == 5 {
        "5"
    } else if d == 6 {
        "6"
    } else if d == 7 {
        "7"
    } else if d == 8 {
        "8"
    } else {
        "9"
    };
    assert(s@ =~= seq![digit_char(d as int)]);
    s
}

/// Renders `n` in decimal, matching [`decimal_digits`].
pub fn u64_to_decimal(n: u64) -> (rendered: String)
    ensures
        rendered@ == decimal_digits(n as nat),
    decreases n,
{
    let last = digit_str(n % 10);
    if n < 10 {
        let rendered = String::from_str(last);
        assert(rendered@ =~= decimal_digits(n as nat));
        rendered
    } else {
        assert(n / 10 < n);
        let mut rendered = u64_to_decimal(n / 10);
        rendered.append(last);
        assert(rendered@ =~= decimal_digits(n as nat));
        rendered
    }
}

} // verus!
