//! Byte classes of the HTTP/1.x grammar, and the packing of short tokens
//! into integers so that a name can be matched one byte at a time.

use vstd::prelude::*;

verus! {

pub const CR: u8 = 0x0d;

pub const LF: u8 = 0x0a;

pub const SP: u8 = 0x20;

pub const HT: u8 = 0x09;

pub const COLON: u8 = 0x3a;

pub const SEMICOLON: u8 = 0x3b;

pub const COMMA: u8 = 0x2c;

pub const SLASH: u8 = 0x2f;

pub const DOT: u8 = 0x2e;

/// `0` to `9`.
pub open spec fn spec_is_digit(b: u8) -> bool {
    0x30 <= b <= 0x39
}

/// Computes `spec_is_digit`.
#[verifier::when_used_as_spec(spec_is_digit)]
pub fn is_digit(b: u8) -> (r: bool)
    ensures
        r == spec_is_digit(b),
{
    0x30 <= b && b <= 0x39
}

/// `A` to `Z` and `a` to `z`.
pub open spec fn spec_is_alpha(b: u8) -> bool {
    0x41 <= b <= 0x5a || 0x61 <= b <= 0x7a
}

/// Computes `spec_is_alpha`.
#[verifier::when_used_as_spec(spec_is_alpha)]
pub fn is_alpha(b: u8) -> (r: bool)
    ensures
        r == spec_is_alpha(b),
{
    (0x41 <= b && b <= 0x5a) || (0x61 <= b && b <= 0x7a)
}

/// The characters of a token: letters, digits and
/// ``! # $ % & ' * + - . ^ _ ` | ~``. No control character, NUL included,
/// no space and no separator is among them.
pub open spec fn spec_is_token(b: u8) -> bool {
    is_alpha(b) || is_digit(b) || b == 0x21 || (0x23 <= b <= 0x27) || b == 0x2a || b == 0x2b
        || b == 0x2d || b == 0x2e || b == 0x5e || b == 0x5f || b == 0x60 || b == 0x7c || b
        == 0x7e
}

/// Computes `spec_is_token`.
#[verifier::when_used_as_spec(spec_is_token)]
pub fn is_token(b: u8) -> (r: bool)
    ensures
        r == spec_is_token(b),
{
    is_alpha(b) || is_digit(b) || b == 0x21 || (0x23 <= b && b <= 0x27) || b == 0x2a || b == 0x2b
        || b == 0x2d || b == 0x2e || b == 0x5e || b == 0x5f || b == 0x60 || b == 0x7c || b
        == 0x7e
}

/// The characters of a request target: visible ASCII.
pub open spec fn spec_is_url_char(b: u8) -> bool {
    0x21 <= b <= 0x7e
}

/// Computes `spec_is_url_char`.
#[verifier::when_used_as_spec(spec_is_url_char)]
pub fn is_url_char(b: u8) -> (r: bool)
    ensures
        r == spec_is_url_char(b),
{
    0x21 <= b && b <= 0x7e
}

/// The characters of a field value or a reason phrase: horizontal tab,
/// space, visible ASCII and the bytes from `0x80` up.
pub open spec fn spec_is_text(b: u8) -> bool {
    b == HT || (0x20 <= b && b != 0x7f)
}

/// Computes `spec_is_text`.
#[verifier::when_used_as_spec(spec_is_text)]
pub fn is_text(b: u8) -> (r: bool)
    ensures
        r == spec_is_text(b),
{
    b == HT || (0x20 <= b && b != 0x7f)
}

/// Space or horizontal tab.
pub open spec fn spec_is_blank(b: u8) -> bool {
    b == SP || b == HT
}

/// Computes `spec_is_blank`.
#[verifier::when_used_as_spec(spec_is_blank)]
pub fn is_blank(b: u8) -> (r: bool)
    ensures
        r == spec_is_blank(b),
{
    b == SP || b == HT
}

/// An upper-case letter becomes lower case; any other byte stays.
pub open spec fn spec_lower(b: u8) -> u8 {
    if 0x41 <= b <= 0x5a {
        (b + 0x20) as u8
    } else {
        b
    }
}

/// Computes `spec_lower`.
#[verifier::when_used_as_spec(spec_lower)]
pub fn lower(b: u8) -> (r: u8)
    ensures
        r == spec_lower(b),
{
    if 0x41 <= b && b <= 0x5a {
        b + 0x20
    } else {
        b
    }
}

/// The value of a decimal digit.
pub open spec fn spec_digit_value(b: u8) -> Option<u8> {
    if is_digit(b) {
        Some((b - 0x30) as u8)
    } else {
        None
    }
}

/// Computes `spec_digit_value`.
#[verifier::when_used_as_spec(spec_digit_value)]
pub fn digit_value(b: u8) -> (r: Option<u8>)
    ensures
        r == spec_digit_value(b),
{
    if is_digit(b) {
        Some(b - 0x30)
    } else {
        None
    }
}

/// The value of a hexadecimal digit, in either case.
pub open spec fn spec_hex_value(b: u8) -> Option<u8> {
    if is_digit(b) {
        Some((b - 0x30) as u8)
    } else if 0x41 <= b <= 0x46 {
        Some((b - 0x41 + 10) as u8)
    } else if 0x61 <= b <= 0x66 {
        Some((b - 0x61 + 10) as u8)
    } else {
        None
    }
}

/// Computes `spec_hex_value`.
#[verifier::when_used_as_spec(spec_hex_value)]
pub fn hex_value(b: u8) -> (r: Option<u8>)
    ensures
        r == spec_hex_value(b),
{
    if is_digit(b) {
        Some(b - 0x30)
    } else if 0x41 <= b && b <= 0x46 {
        Some(b - 0x41 + 10)
    } else if 0x61 <= b && b <= 0x66 {
        Some(b - 0x61 + 10)
    } else {
        None
    }
}

/// A packed token below this bound has room for one more byte.
pub const PACK_ROOM: u128 = 0x0080_0000_0000_0000_0000_0000_0000_0000;

/// What no token packs to: a token that is too long, or that holds a byte
/// from `0x80` up.
pub const PACK_NONE: u128 = 0xffff_ffff_ffff_ffff_ffff_ffff_ffff_ffff;

/// Appends one byte to a packed token. A token is packed as the numeral
/// with base 128 that its bytes spell; seventeen bytes always fit.
pub open spec fn spec_push7(acc: u128, c: u8) -> u128 {
    if acc < PACK_ROOM && c < 128 {
        (acc * 128 + c) as u128
    } else {
        PACK_NONE
    }
}

/// Computes `spec_push7`.
#[verifier::when_used_as_spec(spec_push7)]
pub fn push7(acc: u128, c: u8) -> (r: u128)
    ensures
        r == spec_push7(acc, c),
{
    if acc < PACK_ROOM && c < 128 {
        acc * 128 + (c as u128)
    } else {
        PACK_NONE
    }
}

/// The first `n` bytes of `s`, packed.
pub open spec fn pack_upto(s: Seq<u8>, n: int) -> u128
    decreases n,
{
    if n <= 0 {
        0
    } else {
        push7(pack_upto(s, n - 1), s[n - 1])
    }
}

/// The bytes of `s`, packed.
pub open spec fn pack(s: Seq<u8>) -> u128 {
    pack_upto(s, s.len() as int)
}

/// The first `n` bytes of `s` are token bytes.
pub open spec fn all_tokens_upto(s: Seq<u8>, n: int) -> bool
    decreases n,
{
    n <= 0 || (all_tokens_upto(s, n - 1) && is_token(s[n - 1]))
}

/// `s` is a token: not empty, and made of token bytes.
pub open spec fn is_token_string(s: Seq<u8>) -> bool {
    s.len() > 0 && all_tokens_upto(s, s.len() as int)
}

/// Each of the first `n` bytes of a token is a token byte.
pub proof fn lemma_all_tokens(s: Seq<u8>, n: int, i: int)
    requires
        all_tokens_upto(s, n),
        0 <= i < n,
    ensures
        is_token(s[i]),
        all_tokens_upto(s, i),
    decreases n,
{
    if i < n - 1 {
        lemma_all_tokens(s, n - 1, i);
    }
}

/// The characters of `s` as bytes.
pub open spec fn bytes_of(s: Seq<char>) -> Seq<u8> {
    Seq::new(s.len(), |i: int| s[i] as u8)
}

/// Packs a byte string.
pub fn pack_bytes(s: &[u8]) -> (r: u128)
    ensures
        r == pack(s@),
{
    let mut acc: u128 = 0;
    let mut i: usize = 0;
    while i < s.len()
        invariant
            i <= s@.len(),
            acc == pack_upto(s@, i as int),
        decreases s@.len() - i,
    {
        acc = push7(acc, s[i]);
        i += 1;
    }
    acc
}

/// Appending a byte to a sequence appends it to the packed token.
pub proof fn lemma_pack_push(s: Seq<u8>, c: u8)
    ensures
        pack(s.push(c)) == push7(pack(s), c),
{
    lemma_pack_upto_prefix(s.push(c), s, s.len() as int);
}

/// Packing reads only the bytes below `n`.
pub proof fn lemma_pack_upto_prefix(s: Seq<u8>, t: Seq<u8>, n: int)
    requires
        n <= s.len(),
        n <= t.len(),
        forall|i: int| 0 <= i < n ==> s[i] == t[i],
    ensures
        pack_upto(s, n) == pack_upto(t, n),
    decreases n,
{
    if n > 0 {
        lemma_pack_upto_prefix(s, t, n - 1);
    }
}

} // verus!
