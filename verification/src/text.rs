//! Character-sequence helpers: conversions between `str`, `String` and
//! `Vec<char>`, and the small text operations the rest of the crate builds on.

use vstd::prelude::*;

verus! {

/// Whether two string slices hold the same characters (`PartialEq` on `str`).
#[verifier::external_body]
pub(crate) fn str_eq(a: &str, b: &str) -> (r: bool)
    ensures
        r == (a@ == b@),
{
    a == b
}

/// An owned copy of a string slice (`str::to_string`).
#[verifier::external_body]
pub(crate) fn string_of_str(s: &str) -> (r: String)
    ensures
        r@ == s@,
{
    s.to_string()
}

/// The characters of a string slice (`str::chars`, collected).
#[verifier::external_body]
pub(crate) fn chars_of(s: &str) -> (r: Vec<char>)
    ensures
        r@ == s@,
{
    s.chars().collect()
}

/// A string made of the given characters (`String::from_iter`).
#[verifier::external_body]
pub(crate) fn string_of_chars(v: &Vec<char>) -> (r: String)
    ensures
        r@ == v@,
{
    v.iter().collect()
}

/// Appends the characters of a string slice to a character vector.
pub fn push_str(v: &mut Vec<char>, s: &str)
    ensures
        final(v)@ == old(v)@ + s@,
{
    let cs = chars_of(s);
    let mut i: usize = 0;
    while i < cs.len()
        invariant
            i <= cs@.len(),
            cs@ == s@,
            v@ == old(v)@ + cs@.subrange(0, i as int),
        decreases cs@.len() - i,
    {
        v.push(cs[i]);
        i = i + 1;
        assert(cs@.subrange(0, i as int) =~= cs@.subrange(0, i - 1) + seq![cs@[i - 1]]);
    }
    assert(cs@.subrange(0, cs@.len() as int) =~= cs@);
}

/// The decimal digit for a value below ten.
pub open spec fn digit_char(d: nat) -> char {
    if d == 0 { '0' } else if d == 1 { '1' } else if d == 2 { '2' } else if d == 3 { '3' }
    else if d == 4 { '4' } else if d == 5 { '5' } else if d == 6 { '6' } else if d == 7 { '7' }
    else if d == 8 { '8' } else { '9' }
}

/// The decimal notation of a natural number, without leading zeros
/// (`"0"` for zero).
pub open spec fn decimal(n: nat) -> Seq<char>
    decreases n,
{
    if n < 10 {
        seq![digit_char(n)]
    } else {
        decimal(n / 10).push(digit_char(n % 10))
    }
}

/// The decimal notation of an integer, with a leading `-` when negative.
pub open spec fn signed_decimal(n: int) -> Seq<char> {
    if n < 0 {
        seq!['-'] + decimal((-n) as nat)
    } else {
        decimal(n as nat)
    }
}

fn digit(d: u64) -> (c: char)
    requires
        d < 10,
    ensures
        c == digit_char(d as nat),
{
    if d == 0 { '0' } else if d == 1 { '1' } else if d == 2 { '2' } else if d == 3 { '3' }
    else if d == 4 { '4' } else if d == 5 { '5' } else if d == 6 { '6' } else if d == 7 { '7' }
    else if d == 8 { '8' } else { '9' }
}

/// Appends the decimal notation of `n` to `v`.
pub fn push_decimal(v: &mut Vec<char>, n: u64)
    ensures
        final(v)@ == old(v)@ + decimal(n as nat),
    decreases n,
{
    if n < 10 {
        v.push(digit(n));
    } else {
        push_decimal(v, n / 10);
        v.push(digit(n % 10));
    }
}

/// Appends the decimal notation of a signed integer to `v`.
pub fn push_signed_decimal(v: &mut Vec<char>, n: i64)
    ensures
        final(v)@ == old(v)@ + signed_decimal(n as int),
{
    if n < 0 {
        v.push('-');
        let m: u64 = if n == i64::MIN {
            9223372036854775808u64
        } else {
            (-n) as u64
        };
        push_decimal(v, m);
        assert(final(v)@ =~= old(v)@ + signed_decimal(n as int)) by {
            assert(m as int == -(n as int));
        }
    } else {
        push_decimal(v, n as u64);
    }
}

} // verus!

verus! {

/// The text that a byte sequence encodes in UTF-8 (`std::str::from_utf8`);
/// `None` where the bytes are not valid UTF-8.
#[verifier::external_body]
pub(crate) fn utf8_decode(bytes: &[u8]) -> (r: Option<String>)
    ensures
        r is Some <==> vstd::utf8::valid_utf8(bytes@),
        r matches Some(s) ==> s@ == vstd::utf8::decode_utf8(bytes@),
{
    match std::str::from_utf8(bytes) {
        Ok(s) => Some(s.to_string()),
        Err(_) => None,
    }
}

} // verus!

verus! {

/// Whether a character is white space in Unicode (the `White_Space`
/// property, which `char::is_whitespace` tests).
pub open spec fn is_space(c: char) -> bool {
    let n = c as u32;
    ||| 0x09 <= n <= 0x0D
    ||| n == 0x20
    ||| n == 0x85
    ||| n == 0xA0
    ||| n == 0x1680
    ||| 0x2000 <= n <= 0x200A
    ||| n == 0x2028
    ||| n == 0x2029
    ||| n == 0x202F
    ||| n == 0x205F
    ||| n == 0x3000
}

/// A text without its trailing white space.
pub open spec fn trim_end(s: Seq<char>) -> Seq<char>
    decreases s.len(),
{
    if s.len() > 0 && is_space(s.last()) {
        trim_end(s.drop_last())
    } else {
        s
    }
}

/// A text without its leading white space.
pub open spec fn trim_start(s: Seq<char>) -> Seq<char>
    decreases s.len(),
{
    if s.len() > 0 && is_space(s[0]) {
        trim_start(s.skip(1))
    } else {
        s
    }
}

/// A text without its leading and trailing white space.
pub open spec fn trim(s: Seq<char>) -> Seq<char> {
    trim_start(trim_end(s))
}

/// Whether a character is white space (see `is_space`).
pub fn is_space_char(c: char) -> (r: bool)
    ensures
        r == is_space(c),
{
    let n = c as u32;
    (0x09 <= n && n <= 0x0D) || n == 0x20 || n == 0x85 || n == 0xA0 || n == 0x1680 || (0x2000
        <= n && n <= 0x200A) || n == 0x2028 || n == 0x2029 || n == 0x202F || n == 0x205F || n
        == 0x3000
}

/// The end of the text `v[start..end]` once its trailing white space is cut
/// off.
pub fn trimmed_end(v: &Vec<char>, start: usize, end: usize) -> (e: usize)
    requires
        start <= end <= v@.len(),
    ensures
        start <= e <= end,
        v@.subrange(start as int, e as int) == trim_end(v@.subrange(start as int, end as int)),
{
    let mut e = end;
    while e > start && is_space_char(v[e - 1])
        invariant
            start <= e <= end <= v@.len(),
            trim_end(v@.subrange(start as int, e as int)) == trim_end(
                v@.subrange(start as int, end as int),
            ),
        decreases e - start,
    {
        assert(v@.subrange(start as int, e as int).drop_last() =~= v@.subrange(
            start as int,
            e - 1,
        ));
        e = e - 1;
    }
    e
}

/// The start of the text `v[start..end]` once its leading white space is
/// cut off.
pub fn trimmed_start(v: &Vec<char>, start: usize, end: usize) -> (b: usize)
    requires
        start <= end <= v@.len(),
    ensures
        start <= b <= end,
        v@.subrange(b as int, end as int) == trim_start(v@.subrange(start as int, end as int)),
{
    let mut b = start;
    while b < end && is_space_char(v[b])
        invariant
            start <= b <= end <= v@.len(),
            trim_start(v@.subrange(b as int, end as int)) == trim_start(
                v@.subrange(start as int, end as int),
            ),
        decreases end - b,
    {
        assert(v@.subrange(b as int, end as int).skip(1) =~= v@.subrange(b + 1, end as int));
        b = b + 1;
    }
    b
}

/// Appends the characters `v[start..end]` to `out`.
pub fn push_range(out: &mut Vec<char>, v: &Vec<char>, start: usize, end: usize)
    requires
        start <= end <= v@.len(),
    ensures
        final(out)@ == old(out)@ + v@.subrange(start as int, end as int),
{
    let mut i = start;
    while i < end
        invariant
            start <= i <= end <= v@.len(),
            out@ == old(out)@ + v@.subrange(start as int, i as int),
        decreases end - i,
    {
        out.push(v[i]);
        i = i + 1;
        assert(v@.subrange(start as int, i as int) =~= v@.subrange(start as int, i - 1) + seq![
            v@[i - 1],
        ]);
    }
}

/// A string slice without its leading and trailing white space
/// (`str::trim`).
pub fn trim_str(s: &str) -> (r: String)
    ensures
        r@ == trim(s@),
{
    let cs = chars_of(s);
    let e = trimmed_end(&cs, 0, cs.len());
    let b = trimmed_start(&cs, 0, e);
    let mut out: Vec<char> = Vec::new();
    push_range(&mut out, &cs, b, e);
    assert(cs@.subrange(0, cs@.len() as int) =~= cs@);
    assert(out@ =~= cs@.subrange(b as int, e as int));
    string_of_chars(&out)
}

} // verus!
