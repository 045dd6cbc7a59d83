//! Small string operations used by the rest of the library, each with the
//! contract the rest of the library relies on.
use vstd::prelude::*;
use vstd::string::StringExecFns;

verus! {

/// Compares two string slices character by character.
pub fn str_eq(a: &str, b: &str) -> (r: bool)
    ensures
        r == (a@ == b@),
{
    let x: String = a.to_owned();
    let y: String = b.to_owned();
    x == y
}

/// An owned copy of a string slice.
pub fn owned(s: &str) -> (r: String)
    ensures
        r@ == s@,
{
    s.to_owned()
}

/// The lowercase form of a string, as `str::to_lowercase` computes it.
pub uninterp spec fn lowercase(s: Seq<char>) -> Seq<char>;

/// Whether every character of a string is ASCII.
pub open spec fn all_ascii(s: Seq<char>) -> bool {
    forall|i: int| 0 <= i < s.len() ==> (#[trigger] s[i]) as u32 <= 0x7f
}

/// A character with `A` to `Z` turned into `a` to `z`.
pub open spec fn ascii_lower_char(c: char) -> char {
    if 'A' <= c && c <= 'Z' {
        ((c as u32) + 32) as char
    } else {
        c
    }
}

/// Calls `str::to_lowercase`. Its result, defined by Unicode's case mapping, is
/// named `lowercase` and depends on the argument alone. Of that mapping only
/// its ASCII part is stated: on an all-ASCII string it turns `A` to `Z` into
/// `a` to `z` and keeps every other character. What it does to other
/// characters is left unsaid.
#[verifier::external_body]
pub(crate) fn to_lowercase(s: &str) -> (r: String)
    ensures
        r@ == lowercase(s@),
        all_ascii(s@) ==> r@ == s@.map_values(|c: char| ascii_lower_char(c)),
{
    s.to_lowercase()
}

} // verus!

verus! {

/// What `bool`'s `FromStr` gives for a string: only `"true"` and `"false"`
/// are accepted.
pub open spec fn parsed_bool(s: Seq<char>) -> Option<bool> {
    if s == "true"@ {
        Some(true)
    } else if s == "false"@ {
        Some(false)
    } else {
        None
    }
}

/// The message of the error that `bool`'s `FromStr` reports for `s`.
pub uninterp spec fn bool_parse_message(s: Seq<char>) -> Seq<char>;

/// Calls `str::parse::<bool>` and renders its error with `to_string`. The
/// documentation of `bool`'s `FromStr` accepts exactly `"true"` and `"false"`;
/// the error's message is named `bool_parse_message` and depends on the
/// argument alone.
#[verifier::external_body]
pub(crate) fn parse_bool(s: &str) -> (r: Result<bool, String>)
    ensures
        match r {
            Ok(b) => parsed_bool(s@) == Some(b),
            Err(e) => parsed_bool(s@) is None && e@ == bool_parse_message(s@),
        },
{
    match s.parse::<bool>() {
        Ok(b) => Ok(b),
        Err(e) => Err(e.to_string()),
    }
}

/// Whether a string is a non-empty run of ASCII digits.
pub open spec fn all_digits(d: Seq<char>) -> bool {
    d.len() > 0 && forall|i: int| 0 <= i < d.len() ==> '0' <= #[trigger] d[i] && d[i] <= '9'
}

/// The value of a run of decimal digits.
pub open spec fn digits_value(d: Seq<char>) -> int
    decreases d.len(),
{
    if d.len() == 0 {
        0
    } else {
        digits_value(d.drop_last()) * 10 + (d.last() as int - '0' as int)
    }
}

/// The integer a decimal text stands for: an optional `+` or `-` followed by
/// one or more ASCII digits and nothing else.
pub open spec fn decimal_int(s: Seq<char>) -> Option<int> {
    if s.len() > 0 && s[0] == '-' {
        let d = s.subrange(1, s.len() as int);
        if all_digits(d) { Some(-digits_value(d)) } else { None }
    } else if s.len() > 0 && s[0] == '+' {
        let d = s.subrange(1, s.len() as int);
        if all_digits(d) { Some(digits_value(d)) } else { None }
    } else if all_digits(s) {
        Some(digits_value(s))
    } else {
        None
    }
}

/// The message of the error that `str::parse::<i32>` reports for `s`.
pub uninterp spec fn i32_parse_message(s: Seq<char>) -> Seq<char>;

/// What `str::parse::<i32>` gives for a string, with the error rendered by
/// `to_string`: the value of a decimal text that fits in an `i32`, else an
/// error.
pub open spec fn i32_parse(s: Seq<char>) -> Result<i32, Seq<char>> {
    match decimal_int(s) {
        Some(v) => if i32::MIN <= v <= i32::MAX { Ok(v as i32) } else { Err(i32_parse_message(s)) },
        None => Err(i32_parse_message(s)),
    }
}

/// Calls `str::parse::<i32>` and renders its error with `to_string`. Its
/// documentation (`i32::from_str_radix`) accepts an optional `+` or `-` sign
/// followed by digits only, and reports an error when the value does not fit;
/// the error's message is named `i32_parse_message`.
#[verifier::external_body]
pub(crate) fn parse_i32(s: &str) -> (r: Result<i32, String>)
    ensures
        match r {
            Ok(v) => i32_parse(s@) == Ok::<i32, Seq<char>>(v),
            Err(e) => i32_parse(s@) == Err::<i32, Seq<char>>(e@) && e@ == i32_parse_message(s@),
        },
{
    match s.parse::<i32>() {
        Ok(v) => Ok(v),
        Err(e) => Err(e.to_string()),
    }
}

} // verus!

verus! {

/// The string with every occurrence of `from` replaced by `to`.
pub open spec fn replaced(s: Seq<char>, from: char, to: char) -> Seq<char> {
    s.map_values(|c: char| if c == from { to } else { c })
}

/// Replaces every occurrence of the character `from` by the one-character
/// string `to`.
pub(crate) fn replace_char(s: &str, from: char, to: &str) -> (r: String)
    requires
        to@.len() == 1,
    ensures
        r@ == replaced(s@, from, to@[0]),
{
    let n = s.unicode_len();
    let mut out = String::new();
    let mut i: usize = 0;
    while i < n
        invariant
            n == s@.len(),
            i <= n,
            to@.len() == 1,
            out@ == replaced(s@.subrange(0, i as int), from, to@[0]),
        decreases n - i,
    {
        let c = s.get_char(i);
        let ghost before = out@;
        if c == from {
            out.append(to);
        } else {
            out.append(s.substring_char(i, i + 1));
        }
        proof {
            let next = s@.subrange(0, i + 1);
            assert(next =~= s@.subrange(0, i as int).push(c));
            assert(replaced(next, from, to@[0]) =~= replaced(s@.subrange(0, i as int), from, to@[0]).push(
                if c == from { to@[0] } else { c },
            ));
            if c == from {
                assert(to@ =~= seq![to@[0]]);
            } else {
                assert(s@.subrange(i as int, i + 1) =~= seq![c]);
            }
            assert(out@ =~= replaced(next, from, to@[0]));
        }
        i = i + 1;
    }
    assert(s@.subrange(0, n as int) =~= s@);
    out
}

/// The string without its first character if that is a `/`.
pub open spec fn without_first_slash(s: Seq<char>) -> Seq<char> {
    if s.len() > 0 && s[0] == '/' {
        s.subrange(1, s.len() as int)
    } else {
        s
    }
}

/// Skips a leading `/`.
pub fn skip_first_slash(s: &str) -> (r: &str)
    ensures
        r@ == without_first_slash(s@),
{
    let n = s.unicode_len();
    if n > 0 && s.get_char(0) == '/' {
        s.substring_char(1, n)
    } else {
        s
    }
}

/// The path `p` adjoined to the absolute directory `base` with `/` as the
/// separator: an absolute `p` replaces the base, any other is appended after
/// a separator (an empty one leaves just the trailing separator).
pub open spec fn joined_path(base: Seq<char>, p: Seq<char>) -> Seq<char> {
    if p.len() > 0 && p[0] == '/' {
        p
    } else {
        base + "/"@ + p
    }
}

/// Adjoins `p` to the absolute directory `base`, which has no trailing `/`,
/// as `Path::join` does on Unix.
pub(crate) fn join_path(base: &str, p: &str) -> (r: String)
    requires
        base@.len() > 0,
        base@[0] == '/',
        base@.last() != '/',
    ensures
        r@ == joined_path(base@, p@),
{
    let n = p.unicode_len();
    if n > 0 && p.get_char(0) == '/' {
        owned(p)
    } else {
        let mut s = owned(base);
        s.append("/");
        s.append(p);
        s
    }
}

} // verus!

verus! {

/// The character of a decimal digit.
pub open spec fn digit_char(d: nat) -> char {
    if d == 0 { '0' } else if d == 1 { '1' } else if d == 2 { '2' } else if d == 3 { '3' } else if d == 4 { '4' }
    else if d == 5 { '5' } else if d == 6 { '6' } else if d == 7 { '7' } else if d == 8 { '8' } else { '9' }
}

/// The decimal text of a number, without sign or leading zeros.
pub open spec fn decimal_text(n: nat) -> Seq<char>
    decreases n,
{
    if n < 10 {
        seq![digit_char(n)]
    } else {
        decimal_text(n / 10).push(digit_char(n % 10))
    }
}

fn digit_str(d: u32) -> (r: &'static str)
    requires
        d < 10,
    ensures
        r@ == seq![digit_char(d as nat)],
{
    proof {
        reveal_strlit("0");
        reveal_strlit("1");
        reveal_strlit("2");
        reveal_strlit("3");
        reveal_strlit("4");
        reveal_strlit("5");
        reveal_strlit("6");
        reveal_strlit("7");
        reveal_strlit("8");
        reveal_strlit("9");
    }
    if d == 0 { "0" } else if d == 1 { "1" } else if d == 2 { "2" } else if d == 3 { "3" } else if d == 4 { "4" }
    else if d == 5 { "5" } else if d == 6 { "6" } else if d == 7 { "7" } else if d == 8 { "8" } else { "9" }
}

/// The decimal text of a number, as `u32`'s `to_string` writes it.
pub fn u32_text(n: u32) -> (r: String)
    ensures
        r@ == decimal_text(n as nat),
    decreases n,
{
    if n < 10 {
        owned(digit_str(n))
    } else {
        let mut s = u32_text(n / 10);
        s.append(digit_str(n % 10));
        s
    }
}

} // verus!
