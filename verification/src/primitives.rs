//! The calls into `nom` and into std that the parsers make, with the
//! contracts that the outside code is trusted to meet.

use vstd::prelude::*;
use crate::bytes::{u16_le, u32_le};

verus! {

/// nom's error wrapper (`nom::Err`), carried through opaquely.
#[verifier::external_type_specification]
#[verifier::external_body]
#[verifier::reject_recursive_types(E)]
pub struct ExNomErr<E>(nom::Err<E>);

/// nom's default error (`nom::error::Error`), carried through opaquely.
#[verifier::external_type_specification]
#[verifier::external_body]
#[verifier::reject_recursive_types(I)]
pub struct ExNomError<I>(nom::error::Error<I>);

/// The error that nom's byte parsers return here.
pub type NomError<'a> = nom::Err<nom::error::Error<&'a [u8]>>;

/// Whether a byte belongs to a zero-terminated name (it is not the terminator).
pub fn is_name_byte(c: u8) -> (r: bool)
    ensures
        r == (c != 0),
{
    c != 0
}

/// `nom::number::complete::le_u8`: fails exactly when the input is empty;
/// otherwise yields the first byte and the input after it.
#[verifier::external_body]
pub(crate) fn nom_le_u8(input: &[u8]) -> (r: Result<(&[u8], u8), NomError<'_>>)
    ensures
        r is Ok <==> input@.len() >= 1,
        r matches Ok((rest, v)) ==> rest@ == input@.skip(1) && v == input@[0],
{
    nom::number::complete::le_u8::<&[u8], nom::error::Error<&[u8]>>(input)
}

/// `nom::number::complete::le_u16`: fails exactly when fewer than two bytes
/// remain; otherwise yields the little-endian value of the first two bytes
/// and the input after them.
#[verifier::external_body]
pub(crate) fn nom_le_u16(input: &[u8]) -> (r: Result<(&[u8], u16), NomError<'_>>)
    ensures
        r is Ok <==> input@.len() >= 2,
        r matches Ok((rest, v)) ==> rest@ == input@.skip(2) && v == u16_le(input@, 0),
{
    nom::number::complete::le_u16::<&[u8], nom::error::Error<&[u8]>>(input)
}

/// `nom::number::complete::le_u32`: fails exactly when fewer than four bytes
/// remain; otherwise yields the little-endian value of the first four bytes
/// and the input after them.
#[verifier::external_body]
pub(crate) fn nom_le_u32(input: &[u8]) -> (r: Result<(&[u8], u32), NomError<'_>>)
    ensures
        r is Ok <==> input@.len() >= 4,
        r matches Ok((rest, v)) ==> rest@ == input@.skip(4) && v == u32_le(input@, 0),
{
    nom::number::complete::le_u32::<&[u8], nom::error::Error<&[u8]>>(input)
}

/// `nom::bytes::complete::take_while` with the predicate "not zero": never
/// fails on a byte slice; splits off the longest prefix free of zero bytes
/// and yields it with the input after it.
#[verifier::external_body]
pub(crate) fn nom_take_name(input: &[u8]) -> (r: Result<(&[u8], &[u8]), NomError<'_>>)
    ensures
        r is Ok,
        r matches Ok((rest, taken)) ==> taken@.len() <= input@.len(),
        r matches Ok((rest, taken)) ==> taken@ == input@.take(taken@.len() as int),
        r matches Ok((rest, taken)) ==> rest@ == input@.skip(taken@.len() as int),
        r matches Ok((rest, taken)) ==> forall|i: int| 0 <= i < taken@.len() ==> taken@[i] != 0,
        r matches Ok((rest, taken)) ==> (taken@.len() < input@.len() ==> input@[taken@.len() as int] == 0),
{
    nom::bytes::complete::take_while::<_, &[u8], nom::error::Error<&[u8]>>(|c: u8| is_name_byte(c))(input)
}

/// What `String::from_utf8_lossy` makes of a byte sequence: the UTF-8
/// decoding with every invalid sequence replaced by U+FFFD.
pub uninterp spec fn lossy_utf8(bytes: Seq<u8>) -> Seq<char>;

/// `String::from_utf8_lossy`, made owned: its characters are
/// `lossy_utf8` of the bytes (a function of the bytes alone).
#[verifier::external_body]
pub(crate) fn decode_lossy(bytes: &[u8]) -> (s: String)
    ensures
        s@ == lossy_utf8(bytes@),
{
    String::from_utf8_lossy(bytes).into_owned()
}

} // verus!
