//! Character and string helpers: white space, trimming, the answer to a
//! yes/no question, and the decimal rendering of an identifier.

use vstd::prelude::*;
use vstd::std_specs::iter::IteratorSpec;
use vstd::string::*;

verus! {

/// The code points that Unicode marks as `White_Space`.
pub open spec fn is_whitespace(c: char) -> bool {
    let n = c as u32;
    ||| 0x09 <= n <= 0x0D
    ||| n == 0x20
    ||| n == 0x85
    ||| n == 0xA0
    ||| n == 0x1680
    ||| 0x2000 <= n <= 0x200A
    ||| n == 0x2028
    ||| n == 0x2029
    ||| n == 0x202F
    ||| n == 0x205F
    ||| n == 0x3000
}

/// `s` without its leading white space.
pub open spec fn trim_start(s: Seq<char>) -> Seq<char>
    decreases s.len(),
{
    if s.len() > 0 && is_whitespace(s.first()) {
        trim_start(s.drop_first())
    } else {
        s
    }
}

/// `s` without its trailing white space.
pub open spec fn trim_end(s: Seq<char>) -> Seq<char>
    decreases s.len(),
{
    if s.len() > 0 && is_whitespace(s.last()) {
        trim_end(s.drop_last())
    } else {
        s
    }
}

/// `s` without its leading and trailing white space.
pub open spec fn trimmed(s: Seq<char>) -> Seq<char> {
    trim_end(trim_start(s))
}

/// A string is blank when nothing is left of it after trimming.
pub open spec fn is_blank(s: Seq<char>) -> bool {
    trimmed(s).len() == 0
}

/// An answer counts as "yes" when, trimmed, it is `y` or `yes` in any mix of
/// upper and lower case.
pub open spec fn is_affirmative(s: Seq<char>) -> bool {
    let t = trimmed(s);
    ||| t.len() == 1 && (t[0] == 'y' || t[0] == 'Y')
    ||| t.len() == 3 && (t[0] == 'y' || t[0] == 'Y') && (t[1] == 'e' || t[1] == 'E') && (t[2]
        == 's' || t[2] == 'S')
}

/// The character for a single decimal digit.
pub open spec fn digit_char(d: nat) -> char
    recommends
        d < 10,
{
    (0x30 + d) as char
}

/// The decimal digits of `n`, most significant first, without leading zeros.
pub open spec fn digits(n: nat) -> Seq<char>
    decreases n,
{
    if n < 10 {
        seq![digit_char(n)]
    } else {
        digits(n / 10).push(digit_char(n % 10))
    }
}

/// The decimal rendering of `i`, with a minus sign when it is negative.
pub open spec fn decimal(i: int) -> Seq<char> {
    if i < 0 {
        seq!['-'] + digits((-i) as nat)
    } else {
        digits(i as nat)
    }
}

/// Leading white space up to `k`, and none at `k`, is what `trim_start` removes.
pub proof fn lemma_trim_start_skips(s: Seq<char>, k: int)
    requires
        0 <= k <= s.len(),
        forall|j: int| 0 <= j < k ==> is_whitespace(#[trigger] s[j]),
        k < s.len() ==> !is_whitespace(s[k]),
    ensures
        trim_start(s) == s.skip(k),
    decreases k,
{
    if k > 0 {
        lemma_trim_start_skips(s.drop_first(), k - 1);
    }
}

/// Trailing white space from `k` on, and none just before `k`, is what
/// `trim_end` removes.
pub proof fn lemma_trim_end_takes(s: Seq<char>, k: int)
    requires
        0 <= k <= s.len(),
        forall|j: int| k <= j < s.len() ==> is_whitespace(#[trigger] s[j]),
        0 < k ==> !is_whitespace(s[k - 1]),
    ensures
        trim_end(s) == s.take(k),
    decreases s.len() - k,
{
    if k < s.len() {
        lemma_trim_end_takes(s.drop_last(), k);
    }
}

/// Trimming cuts one window out of the string: what lies before and after it
/// is white space, and the window neither starts nor ends with white space.
pub proof fn lemma_trimmed_is_window(s: Seq<char>) -> (window: (int, int))
    ensures
        0 <= window.0 <= window.1 <= s.len(),
        trimmed(s) == s.subrange(window.0, window.1),
        forall|j: int| 0 <= j < window.0 ==> is_whitespace(#[trigger] s[j]),
        forall|j: int| window.1 <= j < s.len() ==> is_whitespace(#[trigger] s[j]),
        window.0 < window.1 ==> !is_whitespace(s[window.0]) && !is_whitespace(s[window.1 - 1]),
    decreases s.len(),
{
    if s.len() > 0 && is_whitespace(s.first()) {
        let rest = s.drop_first();
        let inner = lemma_trimmed_is_window(rest);
        assert forall|j: int| 0 <= j < inner.0 + 1 implies is_whitespace(#[trigger] s[j]) by {
            if j > 0 {
                assert(s[j] == rest[j - 1]);
            }
        }
        assert forall|j: int| inner.1 + 1 <= j < s.len() implies is_whitespace(
            #[trigger] s[j],
        ) by {
            assert(s[j] == rest[j - 1]);
        }
        (inner.0 + 1, inner.1 + 1)
    } else if s.len() > 0 && is_whitespace(s.last()) {
        let rest = s.drop_last();
        let inner = lemma_trimmed_is_window(rest);
        assert forall|j: int| inner.1 <= j < s.len() implies is_whitespace(#[trigger] s[j]) by {
            if j < rest.len() {
                assert(s[j] == rest[j]);
            }
        }
        inner
    } else {
        (0, s.len() as int)
    }
}

/// A string is blank exactly when every character of it is white space.
pub proof fn lemma_blank_is_all_whitespace(s: Seq<char>)
    ensures
        is_blank(s) <==> forall|j: int| 0 <= j < s.len() ==> is_whitespace(#[trigger] s[j]),
{
    lemma_trimmed_is_window(s);
}

/// Whether `c` is white space.
pub fn char_is_whitespace(c: char) -> (b: bool)
    ensures
        b == is_whitespace(c),
{
    let n: u32 = c as u32;
    (0x09 <= n && n <= 0x0D) || n == 0x20 || n == 0x85 || n == 0xA0 || n == 0x1680 || (0x2000 <= n
        && n <= 0x200A) || n == 0x2028 || n == 0x2029 || n == 0x202F || n == 0x205F || n == 0x3000
}

/// The part of `s` between its leading and its trailing white space.
pub fn trim(s: &str) -> (r: &str)
    ensures
        r@ == trimmed(s@),
{
    let n = s.unicode_len();
    let mut chars = s.chars();
    let mut start: usize = n;
    let mut end: usize = 0;
    let mut i: usize = 0;
    while i < n
        invariant
            n == s@.len(),
            i <= n,
            chars.remaining() == s@.skip(i as int),
            start == n || start < i,
            start == n ==> end == 0,
            start == n ==> forall|j: int| 0 <= j < i ==> is_whitespace(#[trigger] s@[j]),
            start < n ==> start < end <= i && !is_whitespace(s@[start as int]) && !is_whitespace(
                s@[end - 1],
            ),
            start < n ==> forall|j: int| 0 <= j < start ==> is_whitespace(#[trigger] s@[j]),
            start < n ==> forall|j: int| end <= j < i ==> is_whitespace(#[trigger] s@[j]),
        decreases n - i,
    {
        if let Some(c) = chars.next() {
            if !char_is_whitespace(c) {
                if start == n {
                    start = i;
                }
                end = i + 1;
            }
        }
        i = i + 1;
    }
    if start == n {
        proof {
            lemma_trim_start_skips(s@, n as int);
        }
        s.substring_char(0, 0)
    } else {
        proof {
            lemma_trim_start_skips(s@, start as int);
            lemma_trim_end_takes(s@.skip(start as int), end - start);
        }
        s.substring_char(start, end)
    }
}

/// Whether `input` answers "yes".
pub fn affirmative(input: &str) -> (b: bool)
    ensures
        b == is_affirmative(input@),
{
    let t = trim(input);
    let n = t.unicode_len();
    if n == 1 {
        let c0 = t.get_char(0);
        c0 == 'y' || c0 == 'Y'
    } else if n == 3 {
        let c0 = t.get_char(0);
        let c1 = t.get_char(1);
        let c2 = t.get_char(2);
        (c0 == 'y' || c0 == 'Y') && (c1 == 'e' || c1 == 'E') && (c2 == 's' || c2 == 'S')
    } else {
        false
    }
}

fn digit_str(d: u32) -> (r: &'static str)
    requires
        d < 10,
    ensures
        r@ == seq![digit_char(d as nat)],
{
    proof {
        reveal_strlit("0");
        reveal_strlit("1");
        reveal_strlit("2");
        reveal_strlit("3");
        reveal_strlit("4");
        reveal_strlit("5");
        reveal_strlit("6");
        reveal_strlit("7");
        reveal_strlit("8");
        reveal_strlit("9");
    }
    if d == 0 {
        "0"
    } else if d == 1 {
        "1"
    } else if d == 2 {
        "2"
    } else if d == 3 {
        "3"
    } else if d == 4 {
        "4"
    } else if d == 5 {
        "5"
    } else if d == 6 {
        "6"
    } else if d == 7 {
        "7"
    } else if d == 8 {
        "8"
    } else {
        "9"
    }
}

fn append_digits(out: &mut String, n: u32)
    ensures
        final(out)@ == old(out)@ + digits(n as nat),
    decreases n,
{
    if n >= 10 {
        append_digits(out, n / 10);
    }
    out.append(digit_str(n % 10));
}

/// The decimal rendering of `i`.
pub fn decimal_string(i: i32) -> (r: String)
    ensures
        r@ == decimal(i as int),
{
    let mut out = String::new();
    if i < 0 {
        out.append("-");
        proof {
            reveal_strlit("-");
        }
        let magnitude: u32 = (-(i as i64)) as u32;
        append_digits(&mut out, magnitude);
    } else {
        append_digits(&mut out, i as u32);
    }
    out
}

} // verus!
