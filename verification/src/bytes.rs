//! Little-endian fields at byte positions, and zero-terminated names.

use vstd::prelude::*;
use vstd::slice::slice_subrange;
use crate::error::ParseError;
use crate::primitives::{nom_le_u8, nom_le_u16, nom_le_u32, nom_take_name, decode_lossy, lossy_utf8};

verus! {

/// The little-endian 16-bit value of the two bytes at `p`.
pub open spec fn u16_le(s: Seq<u8>, p: int) -> u16 {
    (s[p] as int + 256 * (s[p + 1] as int)) as u16
}

/// The little-endian 32-bit value of the four bytes at `p`.
pub open spec fn u32_le(s: Seq<u8>, p: int) -> u32 {
    (s[p] as int + 256 * (s[p + 1] as int) + 65536 * (s[p + 2] as int)
        + 16777216 * (s[p + 3] as int)) as u32
}

/// Reading a byte at `p`: it must lie inside `s`.
pub open spec fn spec_u8(s: Seq<u8>, p: int) -> Result<u8, ParseError> {
    if 0 <= p && p + 1 <= s.len() { Ok(s[p]) } else { Err(ParseError::Eof) }
}

/// Reading a little-endian 16-bit field at `p`.
pub open spec fn spec_u16(s: Seq<u8>, p: int) -> Result<u16, ParseError> {
    if 0 <= p && p + 2 <= s.len() { Ok(u16_le(s, p)) } else { Err(ParseError::Eof) }
}

/// Reading a little-endian 32-bit field at `p`.
pub open spec fn spec_u32(s: Seq<u8>, p: int) -> Result<u32, ParseError> {
    if 0 <= p && p + 4 <= s.len() { Ok(u32_le(s, p)) } else { Err(ParseError::Eof) }
}

/// The number of bytes before the first zero byte of `s` (all of `s` when
/// it holds none).
pub open spec fn cstr_len(s: Seq<u8>) -> nat
    decreases s.len(),
{
    if s.len() == 0 || s[0] == 0 { 0 } else { 1 + cstr_len(s.drop_first()) }
}

/// The zero-terminated name that starts at `p`: its bytes, without the
/// terminator, up to the end of `s` when no terminator follows.
pub open spec fn cstr_at(s: Seq<u8>, p: int) -> Seq<u8> {
    s.skip(p).take(cstr_len(s.skip(p)) as int)
}

/// The name stored at `p`, decoded as `String::from_utf8_lossy` does.
pub open spec fn name_at(s: Seq<u8>, p: int) -> Seq<char> {
    lossy_utf8(cstr_at(s, p))
}

/// Where a stored offset leads: every offset skips a four-byte header, and
/// the position it leads to must lie inside the buffer.
pub open spec fn spec_offset_target(len: int, off: u32) -> Result<int, ParseError> {
    if off + 4 <= len { Ok(off + 4) } else { Err(ParseError::OutOfBounds) }
}

/// A name is no longer than what it is read from, and `name_at` decodes
/// the bytes from `p` up to the first zero.
pub proof fn lemma_name_at(s: Seq<u8>, p: int)
    requires
        0 <= p <= s.len(),
    ensures
        p + cstr_len(s.skip(p)) <= s.len(),
        name_at(s, p) == lossy_utf8(s.subrange(p, p + cstr_len(s.skip(p)) as int)),
{
    lemma_cstr_len_le(s.skip(p));
    assert(s.skip(p).take(cstr_len(s.skip(p)) as int) =~= s.subrange(p, p + cstr_len(s.skip(p)) as int));
}

/// `cstr_len` never exceeds the length.
pub proof fn lemma_cstr_len_le(s: Seq<u8>)
    ensures
        cstr_len(s) <= s.len(),
    decreases s.len(),
{
    if s.len() > 0 && s[0] != 0 {
        lemma_cstr_len_le(s.drop_first());
    }
}

/// `cstr_len` is the one length whose prefix holds no zero and which ends at
/// a zero or at the end.
pub proof fn lemma_cstr_len_unique(s: Seq<u8>, k: int)
    requires
        0 <= k <= s.len(),
        forall|i: int| 0 <= i < k ==> s[i] != 0,
        k < s.len() ==> s[k] == 0,
    ensures
        cstr_len(s) == k,
    decreases s.len(),
{
    if s.len() == 0 || s[0] == 0 {
        if k > 0 {
            assert(s[0] != 0);
        }
    } else {
        let t = s.drop_first();
        assert forall|i: int| 0 <= i < k - 1 implies t[i] != 0 by {
            assert(t[i] == s[i + 1]);
        }
        if k - 1 < t.len() {
            assert(t[k - 1] == s[k]);
        }
        lemma_cstr_len_unique(t, k - 1);
    }
}

/// Reads the byte at `pos` of `buf`.
pub fn read_u8(buf: &[u8], pos: usize) -> (r: Result<u8, ParseError>)
    ensures
        r == spec_u8(buf@, pos as int),
        buf@.len() <= usize::MAX,
{
    if pos > buf.len() {
        return Err(ParseError::Eof);
    }
    let input = slice_subrange(buf, pos, buf.len());
    match nom_le_u8(input) {
        Ok((_, v)) => Ok(v),
        Err(_) => Err(ParseError::Eof),
    }
}

/// Reads the little-endian 16-bit field at `pos` of `buf`.
pub fn read_u16(buf: &[u8], pos: usize) -> (r: Result<u16, ParseError>)
    ensures
        r == spec_u16(buf@, pos as int),
        buf@.len() <= usize::MAX,
{
    if pos > buf.len() {
        return Err(ParseError::Eof);
    }
    let input = slice_subrange(buf, pos, buf.len());
    match nom_le_u16(input) {
        Ok((_, v)) => {
            assert(input@[0] == buf@[pos as int] && input@[1] == buf@[pos + 1]);
            Ok(v)
        },
        Err(_) => Err(ParseError::Eof),
    }
}

/// Reads the little-endian 32-bit field at `pos` of `buf`.
pub fn read_u32(buf: &[u8], pos: usize) -> (r: Result<u32, ParseError>)
    ensures
        r == spec_u32(buf@, pos as int),
        buf@.len() <= usize::MAX,
{
    if pos > buf.len() {
        return Err(ParseError::Eof);
    }
    let input = slice_subrange(buf, pos, buf.len());
    match nom_le_u32(input) {
        Ok((_, v)) => {
            assert(input@[0] == buf@[pos as int] && input@[1] == buf@[pos + 1]
                && input@[2] == buf@[pos + 2] && input@[3] == buf@[pos + 3]);
            Ok(v)
        },
        Err(_) => Err(ParseError::Eof),
    }
}

/// Reads the zero-terminated name at `pos` of `buf`, which must lie inside
/// it (the end itself gives the empty name).
pub fn read_name(buf: &[u8], pos: usize) -> (r: String)
    requires
        pos <= buf@.len(),
    ensures
        r@ == name_at(buf@, pos as int),
{
    let input = slice_subrange(buf, pos, buf.len());
    match nom_take_name(input) {
        Ok((_, taken)) => {
            proof {
                assert(input@ == buf@.skip(pos as int));
                assert forall|i: int| 0 <= i < taken@.len() implies input@[i] != 0 by {
                    assert(taken@[i] == input@[i]);
                }
                lemma_cstr_len_unique(input@, taken@.len() as int);
            }
            decode_lossy(taken)
        },
        Err(_) => {
            // the contract of `nom_take_name` rules this arm out
            decode_lossy(slice_subrange(input, 0, 0))
        },
    }
}

/// The position that the stored offset `off` leads to in `buf`.
pub fn offset_target(buf: &[u8], off: u32) -> (r: Result<usize, ParseError>)
    ensures
        match r {
            Ok(p) => spec_offset_target(buf@.len() as int, off) == Ok::<int, ParseError>(p as int),
            Err(e) => spec_offset_target(buf@.len() as int, off) == Err::<int, ParseError>(e),
        },
        buf@.len() <= usize::MAX,
{
    let o = off as usize;
    if o > buf.len() || buf.len() - o < 4 {
        Err(ParseError::OutOfBounds)
    } else {
        Ok(o + 4)
    }
}

} // verus!
