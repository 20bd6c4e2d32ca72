//! Big-endian integers, and the calls into `nom` that read them.

use vstd::prelude::*;

verus! {

/// `nom::Err`, the failure of a `nom` parser. Nothing of it is read: every
/// failure of the parsers called here reports that bytes are missing.
#[verifier::external_type_specification]
#[verifier::external_body]
#[verifier::reject_recursive_types(E)]
pub struct ExNomErr<E>(nom::Err<E>);

/// `nom::error::Error`, the detail that a failure of a `nom` parser carries.
/// Nothing of it is read.
#[verifier::external_type_specification]
#[verifier::external_body]
#[verifier::reject_recursive_types(I)]
pub struct ExNomError<I>(nom::error::Error<I>);

/// The unsigned number whose big-endian encoding is the two bytes of `s`
/// from index `i` on.
pub open spec fn be_u16_at(s: Seq<u8>, i: int) -> int {
    s[i] * 0x100 + s[i + 1]
}

/// The unsigned number whose big-endian encoding is the four bytes of `s`
/// from index `i` on.
pub open spec fn be_u32_at(s: Seq<u8>, i: int) -> int {
    s[i] * 0x100_0000 + s[i + 1] * 0x1_0000 + s[i + 2] * 0x100 + s[i + 3]
}

/// The signed number whose big-endian two's complement encoding is the two
/// bytes of `s` from index `i` on.
pub open spec fn be_i16_at(s: Seq<u8>, i: int) -> int {
    if be_u16_at(s, i) < 0x8000 {
        be_u16_at(s, i)
    } else {
        be_u16_at(s, i) - 0x1_0000
    }
}

/// The signed number whose big-endian two's complement encoding is the four
/// bytes of `s` from index `i` on.
pub open spec fn be_i32_at(s: Seq<u8>, i: int) -> int {
    if be_u32_at(s, i) < 0x8000_0000 {
        be_u32_at(s, i)
    } else {
        be_u32_at(s, i) - 0x1_0000_0000
    }
}

/// Calls `nom::number::streaming::be_u8`. Trusted: it succeeds exactly when
/// the input holds a byte, then hands out the first byte and the input
/// without it.
#[verifier::external_body]
pub(crate) fn pu8<'a>(input: &'a [u8]) -> (r: Result<
    (&'a [u8], u8),
    nom::Err<nom::error::Error<&'a [u8]>>,
>)
    ensures
        r is Ok <==> input@.len() >= 1,
        r matches Ok((rest, v)) ==> rest@ == input@.skip(1) && v == input@[0],
{
    nom::number::streaming::be_u8(input)
}

/// Calls `nom::number::streaming::be_u16`. Trusted: it succeeds exactly when
/// the input holds two bytes, then hands out their big-endian value and the
/// input without them.
#[verifier::external_body]
pub(crate) fn pu16<'a>(input: &'a [u8]) -> (r: Result<
    (&'a [u8], u16),
    nom::Err<nom::error::Error<&'a [u8]>>,
>)
    ensures
        r is Ok <==> input@.len() >= 2,
        r matches Ok((rest, v)) ==> rest@ == input@.skip(2) && v == be_u16_at(input@, 0),
{
    nom::number::streaming::be_u16(input)
}

/// Calls `nom::number::streaming::be_u32`. Trusted: it succeeds exactly when
/// the input holds four bytes, then hands out their big-endian value and the
/// input without them.
#[verifier::external_body]
pub(crate) fn pu32<'a>(input: &'a [u8]) -> (r: Result<
    (&'a [u8], u32),
    nom::Err<nom::error::Error<&'a [u8]>>,
>)
    ensures
        r is Ok <==> input@.len() >= 4,
        r matches Ok((rest, v)) ==> rest@ == input@.skip(4) && v == be_u32_at(input@, 0),
{
    nom::number::streaming::be_u32(input)
}

/// Calls `nom::number::streaming::be_i16`. Trusted: it succeeds exactly when
/// the input holds two bytes, then hands out the two's complement value of
/// their big-endian reading and the input without them.
#[verifier::external_body]
pub(crate) fn p16<'a>(input: &'a [u8]) -> (r: Result<
    (&'a [u8], i16),
    nom::Err<nom::error::Error<&'a [u8]>>,
>)
    ensures
        r is Ok <==> input@.len() >= 2,
        r matches Ok((rest, v)) ==> rest@ == input@.skip(2) && v == be_i16_at(input@, 0),
{
    nom::number::streaming::be_i16(input)
}

/// Calls `nom::number::streaming::be_i32`. Trusted: it succeeds exactly when
/// the input holds four bytes, then hands out the two's complement value of
/// their big-endian reading and the input without them.
#[verifier::external_body]
pub(crate) fn p32<'a>(input: &'a [u8]) -> (r: Result<
    (&'a [u8], i32),
    nom::Err<nom::error::Error<&'a [u8]>>,
>)
    ensures
        r is Ok <==> input@.len() >= 4,
        r matches Ok((rest, v)) ==> rest@ == input@.skip(4) && v == be_i32_at(input@, 0),
{
    nom::number::streaming::be_i32(input)
}

/// Calls the parser that `nom::bytes::streaming::take` builds for `count`.
/// Trusted: it succeeds exactly when the input holds `count` bytes, then
/// hands out those bytes and the input without them.
#[verifier::external_body]
pub(crate) fn take<'a>(input: &'a [u8], count: u8) -> (r: Result<
    (&'a [u8], &'a [u8]),
    nom::Err<nom::error::Error<&'a [u8]>>,
>)
    ensures
        r is Ok <==> input@.len() >= count,
        r matches Ok((rest, taken)) ==> rest@ == input@.skip(count as int) && taken@
            == input@.take(count as int),
{
    nom::bytes::streaming::take(count)(input)
}

} // verus!
