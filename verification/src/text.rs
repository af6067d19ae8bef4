//! Small text utilities shared by the agent, its builders and the fetcher.
//!
//! Everything here is stated over the character sequence of a string.

use vstd::prelude::*;

verus! {

/// The characters of an optional string.
pub open spec fn option_text(value: Option<String>) -> Option<Seq<char>> {
    match value {
        Some(s) => Some(s@),
        None => None,
    }
}

/// What `non_empty_string` keeps of an optional text: the text itself unless
/// it is absent or has no characters.
pub open spec fn non_empty(value: Option<Seq<char>>) -> Option<Seq<char>> {
    match value {
        Some(s) => if s.len() == 0 {
            None
        } else {
            value
        },
        None => None,
    }
}

/// Canonicalizes an empty optional string to an absent one.
pub fn non_empty_string(value: Option<String>) -> (kept: Option<String>)
    ensures
        option_text(kept) == non_empty(option_text(value)),
        kept is Some ==> kept == value,
{
    match value {
        Some(s) => {
            if s.as_str().is_empty() {
                None
            } else {
                Some(s)
            }
        },
        None => None,
    }
}

/// Appends one character to a string: `String::push` of the standard
/// library, which vstd leaves unspecified.
pub assume_specification[ String::push ](s: &mut String, ch: char)
    ensures
        final(s)@ == old(s)@.push(ch),
;

/// Whether `s` begins with `prefix`.
pub fn starts_with(s: &str, prefix: &str) -> (found: bool)
    ensures
        found == prefix@.is_prefix_of(s@),
{
    let n: usize = prefix.unicode_len();
    let m: usize = s.unicode_len();
    if n > m {
        return false;
    }
    let mut i: usize = 0;
    while i < n
        invariant
            n == prefix@.len(),
            m == s@.len(),
            n <= m,
            i <= n,
            forall|j: int| 0 <= j < i ==> s@[j] == prefix@[j],
        decreases n - i,
    {
        if s.get_char(i) != prefix.get_char(i) {
            assert(s@.subrange(0, n as int)[i as int] != prefix@[i as int]);
            return false;
        }
        i += 1;
    }
    assert(prefix@ =~= s@.subrange(0, n as int));
    true
}

/// Whether `s` ends with `suffix`.
pub fn ends_with(s: &str, suffix: &str) -> (found: bool)
    ensures
        found == suffix@.is_suffix_of(s@),
{
    let n: usize = suffix.unicode_len();
    let m: usize = s.unicode_len();
    if n > m {
        return false;
    }
    let start: usize = m - n;
    let mut i: usize = 0;
    while i < n
        invariant
            n == suffix@.len(),
            m == s@.len(),
            n <= m,
            start == m - n,
            i <= n,
            forall|j: int| 0 <= j < i ==> s@[start + j] == suffix@[j],
        decreases n - i,
    {
        if s.get_char(start + i) != suffix.get_char(i) {
            assert(s@.subrange(m - n, m as int)[i as int] != suffix@[i as int]);
            return false;
        }
        i += 1;
    }
    assert(suffix@ =~= s@.subrange(m - n, m as int));
    true
}

/// A character with the Unicode property `White_Space`.
pub open spec fn is_white_space(c: char) -> bool {
    let code = c as u32;
    ||| (0x09 <= code && code <= 0x0d)
    ||| code == 0x20
    ||| code == 0x85
    ||| code == 0xa0
    ||| code == 0x1680
    ||| (0x2000 <= code && code <= 0x200a)
    ||| code == 0x2028
    ||| code == 0x2029
    ||| code == 0x202f
    ||| code == 0x205f
    ||| code == 0x3000
}

/// The text without its leading white space.
pub open spec fn trimmed_start(s: Seq<char>) -> Seq<char>
    decreases s.len(),
{
    if s.len() > 0 && is_white_space(s.first()) {
        trimmed_start(s.drop_first())
    } else {
        s
    }
}

/// The text without its trailing white space.
pub open spec fn trimmed_end(s: Seq<char>) -> Seq<char>
    decreases s.len(),
{
    if s.len() > 0 && is_white_space(s.last()) {
        trimmed_end(s.drop_last())
    } else {
        s
    }
}

/// The text without leading and trailing white space.
pub open spec fn trimmed(s: Seq<char>) -> Seq<char> {
    trimmed_end(trimmed_start(s))
}

/// `str::trim` of the standard library: the slice without leading and
/// trailing white space, where white space is what the Unicode property
/// `White_Space` says.
pub assume_specification[ str::trim ](s: &str) -> (t: &str)
    ensures
        t@ == trimmed(s@),
;

/// The text with every occurrence of the character `from` turned into `to`.
pub open spec fn replaced(s: Seq<char>, from: char, to: char) -> Seq<char> {
    Seq::new(s.len(), |i: int| if s[i] == from { to } else { s[i] })
}

/// Copies `s`, turning every `from` into `to`.
pub fn replace_char(s: &str, from: char, to: char) -> (out: String)
    ensures
        out@ == replaced(s@, from, to),
{
    let n: usize = s.unicode_len();
    let mut out = String::new();
    let mut i: usize = 0;
    while i < n
        invariant
            n == s@.len(),
            i <= n,
            out@ == replaced(s@, from, to).subrange(0, i as int),
        decreases n - i,
    {
        let c = s.get_char(i);
        if c == from {
            out.push(to);
        } else {
            out.push(c);
        }
        i += 1;
        assert(out@ =~= replaced(s@, from, to).subrange(0, i as int));
    }
    assert(out@ =~= replaced(s@, from, to));
    out
}

/// The decimal digit that stands for `d`, for `d` below ten.
pub open spec fn digit_char(d: nat) -> char {
    if d == 0 {
        '0'
    } else if d == 1 {
        '1'
    } else if d == 2 {
        '2'
    } else if d == 3 {
        '3'
    } else if d == 4 {
        '4'
    } else if d == 5 {
        '5'
    } else if d == 6 {
        '6'
    } else if d == 7 {
        '7'
    } else if d == 8 {
        '8'
    } else {
        '9'
    }
}

/// The decimal numeral of `n`, without sign or leading zeros.
pub open spec fn decimal(n: nat) -> Seq<char>
    decreases n,
{
    if n < 10 {
        seq![digit_char(n)]
    } else {
        decimal(n / 10).push(digit_char(n % 10))
    }
}

fn digit(d: u64) -> (c: char)
    requires
        d < 10,
    ensures
        c == digit_char(d as nat),
{
    if d == 0 {
        '0'
    } else if d == 1 {
        '1'
    } else if d == 2 {
        '2'
    } else if d == 3 {
        '3'
    } else if d == 4 {
        '4'
    } else if d == 5 {
        '5'
    } else if d == 6 {
        '6'
    } else if d == 7 {
        '7'
    } else if d == 8 {
        '8'
    } else {
        '9'
    }
}

/// Writes `n` in decimal.
pub fn decimal_string(n: u64) -> (out: String)
    ensures
        out@ == decimal(n as nat),
    decreases n,
{
    if n < 10 {
        let mut out = String::new();
        out.push(digit(n));
        assert(out@ =~= seq![digit_char(n as nat)]);
        out
    } else {
        let mut out = decimal_string(n / 10);
        out.push(digit(n % 10));
        out
    }
}

/// Joins two pieces of text into a new string.
pub fn join2(a: &str, b: &str) -> (out: String)
    ensures
        out@ == a@ + b@,
{
    let mut out = String::from_str(a);
    out.append(b);
    out
}

/// Joins three pieces of text into a new string.
pub fn join3(a: &str, b: &str, c: &str) -> (out: String)
    ensures
        out@ == a@ + b@ + c@,
{
    let mut out = String::from_str(a);
    out.append(b);
    out.append(c);
    out
}

/// A copy of an optional string.
pub fn clone_option(value: &Option<String>) -> (copy: Option<String>)
    ensures
        option_text(copy) == option_text(*value),
{
    match value {
        Some(s) => Some(s.clone()),
        None => None,
    }
}

} // verus!
