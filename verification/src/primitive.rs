//! How numbers, characters and text are laid out in a packet.
//!
//! Unsigned numbers are variable length: up to 250 they are one byte, above that a marker byte
//! says how many little-endian bytes follow. Signed numbers are folded onto unsigned ones. Text
//! is its length in UTF-8 bytes followed by these bytes.
//!
//! The bytes themselves are written and read by the `bincode` crate in its standard
//! configuration.

use vstd::prelude::*;
use vstd::utf8::{
    decode_first_scalar, decode_utf8, encode_scalar, encode_utf8, length_of_first_scalar,
    valid_first_scalar, valid_utf8,
};

verus! {

/// The `width` lowest base 256 digits of `v`, lowest first.
pub open spec fn le(v: nat, width: nat) -> Seq<u8>
    decreases width,
{
    if width == 0 {
        Seq::empty()
    } else {
        seq![(v % 256) as u8] + le(v / 256, (width - 1) as nat)
    }
}

/// The number whose base 256 digits are `s`, lowest first.
pub open spec fn le_value(s: Seq<u8>) -> nat
    decreases s.len(),
{
    if s.len() == 0 {
        0
    } else {
        s[0] as nat + 256 * le_value(s.drop_first())
    }
}

/// Layout of an unsigned number.
pub open spec fn varint(v: nat) -> Seq<u8> {
    if v <= 250 {
        seq![v as u8]
    } else if v <= 0xffff {
        seq![251u8] + le(v, 2)
    } else if v <= 0xffff_ffff {
        seq![252u8] + le(v, 4)
    } else {
        seq![253u8] + le(v, 8)
    }
}

/// Reads `width` digits after the marker byte.
pub open spec fn read_digits(s: Seq<u8>, width: int) -> Option<(nat, Seq<u8>)> {
    if s.len() > width {
        Some((le_value(s.subrange(1, width + 1)), s.skip(width + 1)))
    } else {
        None
    }
}

/// The unsigned number that `s` starts with, of at most `width` digits, and what follows it.
pub open spec fn read_varint(s: Seq<u8>, width: nat) -> Option<(nat, Seq<u8>)> {
    if s.len() == 0 {
        None
    } else if s[0] <= 250 {
        Some((s[0] as nat, s.skip(1)))
    } else if s[0] == 251 {
        read_digits(s, 2)
    } else if s[0] == 252 {
        read_digits(s, 4)
    } else if s[0] == 253 && width == 8 {
        read_digits(s, 8)
    } else {
        None
    }
}

/// A signed number folded onto the unsigned ones.
pub open spec fn zigzag(v: int) -> nat {
    if v >= 0 {
        (2 * v) as nat
    } else {
        (-2 * v - 1) as nat
    }
}

/// The signed number that is folded onto `n`.
pub open spec fn unzigzag(n: nat) -> int {
    if n % 2 == 0 {
        n as int / 2
    } else {
        -(n as int / 2) - 1
    }
}

/// The signed number that `s` starts with and what follows it.
pub open spec fn read_zigzag(s: Seq<u8>) -> Option<(int, Seq<u8>)> {
    match read_varint(s, 4) {
        Some((n, rest)) => Some((unzigzag(n), rest)),
        None => None,
    }
}

/// The character that `s` starts with and what follows it.
pub open spec fn read_char(s: Seq<u8>) -> Option<(char, Seq<u8>)> {
    if valid_first_scalar(s) {
        Some((decode_first_scalar(s) as char, s.skip(length_of_first_scalar(s))))
    } else {
        None
    }
}

/// Layout of a text.
pub open spec fn text(chars: Seq<char>) -> Seq<u8> {
    varint(encode_utf8(chars).len()) + encode_utf8(chars)
}

/// The text that `s` starts with and what follows it.
pub open spec fn read_text(s: Seq<u8>) -> Option<(Seq<char>, Seq<u8>)> {
    match read_varint(s, 8) {
        Some((n, rest)) => if n <= rest.len() && valid_utf8(rest.take(n as int)) {
            Some((decode_utf8(rest.take(n as int)), rest.skip(n as int)))
        } else {
            None
        },
        None => None,
    }
}

/// The error of `bincode` on bytes that it cannot read.
#[verifier::external_type_specification]
#[verifier::external_body]
pub struct ExDecodeError(bincode::error::DecodeError);

/// The error of `bincode` on a value that it cannot write.
#[verifier::external_type_specification]
#[verifier::external_body]
pub struct ExEncodeError(bincode::error::EncodeError);

/// `bincode::encode_to_vec` on a `u32`, which always succeeds: the variable length layout.
#[verifier::external_body]
pub(crate) fn encode_u32(v: u32) -> (r: Result<Vec<u8>, bincode::error::EncodeError>)
    ensures
        r is Ok,
        r->Ok_0@ == varint(v as nat),
{
    bincode::encode_to_vec(v, bincode::config::standard())
}

/// `bincode::encode_to_vec` on a `u64`, which always succeeds: the variable length layout.
#[verifier::external_body]
pub(crate) fn encode_u64(v: u64) -> (r: Result<Vec<u8>, bincode::error::EncodeError>)
    ensures
        r is Ok,
        r->Ok_0@ == varint(v as nat),
{
    bincode::encode_to_vec(v, bincode::config::standard())
}

/// `bincode::encode_to_vec` on an `i32`, which always succeeds: the number is folded onto the
/// unsigned ones and laid out as these are.
#[verifier::external_body]
pub(crate) fn encode_i32(v: i32) -> (r: Result<Vec<u8>, bincode::error::EncodeError>)
    ensures
        r is Ok,
        r->Ok_0@ == varint(zigzag(v as int)),
{
    bincode::encode_to_vec(v, bincode::config::standard())
}

/// `bincode::encode_to_vec` on a `char`, which always succeeds: its UTF-8 bytes.
#[verifier::external_body]
pub(crate) fn encode_char(v: char) -> (r: Result<Vec<u8>, bincode::error::EncodeError>)
    ensures
        r is Ok,
        r->Ok_0@ == encode_scalar(v as u32),
{
    bincode::encode_to_vec(v, bincode::config::standard())
}

/// `bincode::encode_to_vec` on a `&str`, which always succeeds: the number of UTF-8 bytes and
/// then these bytes.
#[verifier::external_body]
pub(crate) fn encode_str(v: &str) -> (r: Result<Vec<u8>, bincode::error::EncodeError>)
    ensures
        r is Ok,
        r->Ok_0@ == text(v@),
{
    bincode::encode_to_vec(v, bincode::config::standard())
}

/// `bincode::decode_from_slice` to a `u32`: the number at the start of the bytes and how many
/// bytes it takes, or an error where none of at most four digits stands there.
#[verifier::external_body]
pub(crate) fn decode_u32(bytes: &[u8]) -> (r: Result<(u32, usize), bincode::error::DecodeError>)
    ensures
        r matches Ok(p) ==> p.1 <= bytes@.len() && read_varint(bytes@, 4) == Some(
            (p.0 as nat, bytes@.skip(p.1 as int)),
        ),
        r is Err ==> read_varint(bytes@, 4) is None,
{
    bincode::decode_from_slice(bytes, bincode::config::standard())
}

/// `bincode::decode_from_slice` to a `u64`: the number at the start of the bytes and how many
/// bytes it takes, or an error where none of at most eight digits stands there.
#[verifier::external_body]
pub(crate) fn decode_u64(bytes: &[u8]) -> (r: Result<(u64, usize), bincode::error::DecodeError>)
    ensures
        r matches Ok(p) ==> p.1 <= bytes@.len() && read_varint(bytes@, 8) == Some(
            (p.0 as nat, bytes@.skip(p.1 as int)),
        ),
        r is Err ==> read_varint(bytes@, 8) is None,
{
    bincode::decode_from_slice(bytes, bincode::config::standard())
}

/// `bincode::decode_from_slice` to an `i32`: the folded number at the start of the bytes and how
/// many bytes it takes, or an error where none stands there.
#[verifier::external_body]
pub(crate) fn decode_i32(bytes: &[u8]) -> (r: Result<(i32, usize), bincode::error::DecodeError>)
    ensures
        r matches Ok(p) ==> p.1 <= bytes@.len() && read_zigzag(bytes@) == Some(
            (p.0 as int, bytes@.skip(p.1 as int)),
        ),
        r is Err ==> read_zigzag(bytes@) is None,
{
    bincode::decode_from_slice(bytes, bincode::config::standard())
}

/// `bincode::decode_from_slice` to a `char`: the UTF-8 scalar at the start of the bytes and how
/// many bytes it takes, or an error where none stands there.
#[verifier::external_body]
pub(crate) fn decode_char(bytes: &[u8]) -> (r: Result<(char, usize), bincode::error::DecodeError>)
    ensures
        r matches Ok(p) ==> p.1 <= bytes@.len() && read_char(bytes@) == Some(
            (p.0, bytes@.skip(p.1 as int)),
        ),
        r is Err ==> read_char(bytes@) is None,
{
    bincode::decode_from_slice(bytes, bincode::config::standard())
}

/// `bincode::borrow_decode_from_slice` to a `&str`: the text at the start of the bytes and how
/// many bytes it takes, or an error where the length is missing or longer than what follows, or
/// where what follows is no UTF-8.
#[verifier::external_body]
pub(crate) fn decode_str<'a>(bytes: &'a [u8]) -> (r: Result<
    (&'a str, usize),
    bincode::error::DecodeError,
>)
    ensures
        r matches Ok(p) ==> p.1 <= bytes@.len() && read_text(bytes@) == Some(
            (p.0@, bytes@.skip(p.1 as int)),
        ),
        r is Err ==> read_text(bytes@) is None,
{
    bincode::borrow_decode_from_slice(bytes, bincode::config::standard())
}

proof fn lemma_le_value(v: nat, width: nat)
    ensures
        le(v, width).len() == width,
        le_value(le(v, width)) == v % (vstd::arithmetic::power::pow(256, width) as nat),
        vstd::arithmetic::power::pow(256, width) > 0,
    decreases width,
{
    use_pow(width);
    if width > 0 {
        let p = vstd::arithmetic::power::pow(256, (width - 1) as nat) as nat;
        lemma_le_value(v / 256, (width - 1) as nat);
        assert(le(v, width).drop_first() =~= le(v / 256, (width - 1) as nat));
        assert((v % 256) as int + 256 * ((v / 256) % p) == v % (256 * p)) by {
            vstd::arithmetic::div_mod::lemma_mod_breakdown(v as int, 256, p as int);
        }
    }
}

proof fn use_pow(width: nat)
    ensures
        width == 0 ==> vstd::arithmetic::power::pow(256, width) == 1,
        width > 0 ==> vstd::arithmetic::power::pow(256, width)
            == 256 * vstd::arithmetic::power::pow(256, (width - 1) as nat),
{
    reveal(vstd::arithmetic::power::pow);
}

/// An unsigned number can be read back from its layout, whatever follows it.
pub proof fn law_varint(v: nat, width: nat, rest: Seq<u8>)
    requires
        width == 4 && v <= u32::MAX || width == 8 && v <= u64::MAX,
    ensures
        read_varint(varint(v) + rest, width) == Some((v, rest)),
{
    let s = varint(v) + rest;
    assert(vstd::arithmetic::power::pow(256, 2) == 0x1_0000 && vstd::arithmetic::power::pow(256, 4)
        == 0x1_0000_0000 && vstd::arithmetic::power::pow(256, 8) == 0x1_0000_0000_0000_0000) by {
        reveal(vstd::arithmetic::power::pow);
        reveal_with_fuel(vstd::arithmetic::power::pow, 9);
    }
    if v <= 250 {
        assert(s.skip(1) =~= rest);
    } else {
        let digits: nat = if v <= 0xffff {
            2
        } else if v <= 0xffff_ffff {
            4
        } else {
            8
        };
        lemma_le_value(v, digits);
        vstd::arithmetic::div_mod::lemma_small_mod(
            v,
            vstd::arithmetic::power::pow(256, digits) as nat,
        );
        assert(s.subrange(1, digits + 1int) =~= le(v, digits));
        assert(s.skip(digits + 1int) =~= rest);
    }
}

/// A signed number can be read back from its layout, whatever follows it.
pub proof fn law_zigzag(v: i32, rest: Seq<u8>)
    ensures
        read_zigzag(varint(zigzag(v as int)) + rest) == Some((v as int, rest)),
{
    law_varint(zigzag(v as int), 4, rest);
}

/// A character can be read back from its layout, whatever follows it.
pub proof fn law_char(c: char, rest: Seq<u8>)
    ensures
        read_char(encode_scalar(c as u32) + rest) == Some((c, rest)),
{
    let bytes = encode_scalar(c as u32);
    let alone = encode_utf8(seq![c]);
    assert(seq![c].drop_first() =~= Seq::<char>::empty());
    assert(encode_utf8(Seq::<char>::empty()) =~= Seq::<u8>::empty());
    assert(alone =~= bytes);
    vstd::utf8::encode_utf8_first_scalar(seq![c]);
    let s = bytes + rest;
    assert(forall|i: int| 0 <= i < bytes.len() ==> s[i] == bytes[i]);
    vstd::utf8::char_u32_cast(c, c as u32);
    assert(s.skip(bytes.len() as int) =~= rest);
}

/// A text can be read back from its layout, whatever follows it.
pub proof fn law_text(chars: Seq<char>, rest: Seq<u8>)
    requires
        encode_utf8(chars).len() <= u64::MAX,
    ensures
        read_text(text(chars) + rest) == Some((chars, rest)),
{
    let bytes = encode_utf8(chars);
    assert(text(chars) + rest =~= varint(bytes.len()) + (bytes + rest));
    law_varint(bytes.len(), 8, bytes + rest);
    assert((bytes + rest).take(bytes.len() as int) =~= bytes);
    assert((bytes + rest).skip(bytes.len() as int) =~= rest);
    vstd::utf8::encode_utf8_valid_utf8(chars);
    vstd::utf8::encode_utf8_decode_utf8(chars);
}

/// A number up to 250 is one byte; a larger one a marker and its two, four or eight digits, lowest
/// first, as few as it takes.
pub proof fn law_varint_layout(v: nat)
    requires
        v <= u64::MAX,
    ensures
        v <= 250 ==> varint(v) == seq![v as u8],
        250 < v <= 0xffff ==> varint(v) == seq![251u8, (v % 256) as u8, (v / 256) as u8],
        0xffff < v <= 0xffff_ffff ==> varint(v) == seq![
            252u8,
            (v % 256) as u8,
            (v / 256 % 256) as u8,
            (v / 256 / 256 % 256) as u8,
            (v / 256 / 256 / 256) as u8,
        ],
        v > 0xffff_ffff ==> varint(v)[0] == 253 && varint(v).len() == 9,
{
    reveal_with_fuel(le, 9);
    lemma_le_value(v, 8);
}

/// Signed numbers are folded so that small ones stay small: zero, minus one, one, minus two and so
/// on. No two are folded onto the same.
pub proof fn law_folded(v: int, w: int)
    ensures
        zigzag(0) == 0,
        zigzag(-1) == 1,
        zigzag(1) == 2,
        v >= 0 ==> zigzag(v + 1) == zigzag(v) + 2,
        v < 0 ==> zigzag(v - 1) == zigzag(v) + 2,
        unzigzag(zigzag(v)) == v,
        zigzag(v) == zigzag(w) ==> v == w,
{
}

} // verus!
