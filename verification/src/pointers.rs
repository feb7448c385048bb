//! The pointer file: a count, then that many (file id, position) pairs.

use std::collections::HashMap;
use vstd::prelude::*;
use crate::error::ParseError;
use crate::bytes::{u32_le, read_u32};

verus! {

/// The pairs of the pointer file `s`: a 32-bit count at 0, then that many
/// pairs of 32-bit fields (file id, then position) from 4 on.
pub open spec fn spec_pointer_table(s: Seq<u8>) -> Result<Seq<(u32, u32)>, ParseError> {
    if s.len() < 4 {
        Err(ParseError::Eof)
    } else if 4 + 8 * (u32_le(s, 0) as int) > s.len() {
        Err(ParseError::Eof)
    } else {
        Ok(Seq::new(u32_le(s, 0) as nat, |i: int| (u32_le(s, 4 + 8 * i), u32_le(s, 8 + 8 * i))))
    }
}

/// The map that the pairs give: each pair maps its position to its file id,
/// a later pair overriding an earlier one for the same position.
pub open spec fn spec_pointer_map(pairs: Seq<(u32, u32)>) -> Map<usize, usize>
    decreases pairs.len(),
{
    if pairs.len() == 0 {
        Map::empty()
    } else {
        spec_pointer_map(pairs.drop_last()).insert(pairs.last().1 as usize, pairs.last().0 as usize)
    }
}

/// Reads the pairs of the pointer file `s` (see `spec_pointer_table`).
pub fn pointer_table(s: &[u8]) -> (r: Result<Vec<(u32, u32)>, ParseError>)
    ensures
        match r {
            Ok(v) => spec_pointer_table(s@) == Ok::<Seq<(u32, u32)>, ParseError>(v@),
            Err(e) => spec_pointer_table(s@) == Err::<Seq<(u32, u32)>, ParseError>(e),
        },
{
    let pointer_count = read_u32(s, 0)?;
    let mut pairs: Vec<(u32, u32)> = Vec::new();
    let mut q: usize = 4;
    let mut i: u32 = 0;
    while i < pointer_count
        invariant
            s@.len() >= 4,
            pointer_count == u32_le(s@, 0),
            i <= pointer_count,
            q == 4 + 8 * (i as int),
            q <= s@.len() <= usize::MAX,
            pairs@ == Seq::new(i as nat, |k: int| (u32_le(s@, 4 + 8 * k), u32_le(s@, 8 + 8 * k))),
        decreases pointer_count - i,
    {
        let x = read_u32(s, q)?;
        let y = read_u32(s, q + 4)?;
        let ghost before = pairs@;
        pairs.push((x, y));
        q = q + 8;
        i = i + 1;
        assert(pairs@ =~= Seq::new(i as nat, |k: int| (u32_le(s@, 4 + 8 * k), u32_le(s@, 8 + 8 * k))));
    }
    Ok(pairs)
}

/// Builds the map of the pairs (see `spec_pointer_map`).
pub fn pointer_map(pairs: &Vec<(u32, u32)>) -> (m: HashMap<usize, usize>)
    ensures
        m@ == spec_pointer_map(pairs@),
{
    broadcast use vstd::std_specs::hash::group_hash_axioms;
    let mut m: HashMap<usize, usize> = HashMap::new();
    let mut i: usize = 0;
    while i < pairs.len()
        invariant
            i <= pairs@.len(),
            m@ == spec_pointer_map(pairs@.take(i as int)),
        decreases pairs@.len() - i,
    {
        let (x, y) = pairs[i];
        m.insert(y as usize, x as usize);
        i = i + 1;
        assert(pairs@.take(i as int).drop_last() =~= pairs@.take(i - 1));
    }
    assert(pairs@.take(i as int) =~= pairs@);
    m
}

/// The pointer map sends the position of pair `j` to pair `j`'s file id
/// when no later pair names the same position.
pub proof fn lemma_pointer_map_last_wins(pairs: Seq<(u32, u32)>, j: int)
    requires
        0 <= j < pairs.len(),
        forall|l: int| j < l < pairs.len() ==> pairs[l].1 != pairs[j].1,
    ensures
        spec_pointer_map(pairs).contains_key(pairs[j].1 as usize),
        spec_pointer_map(pairs)[pairs[j].1 as usize] == pairs[j].0 as usize,
    decreases pairs.len(),
{
    if j < pairs.len() - 1 {
        let init = pairs.drop_last();
        assert forall|l: int| j < l < init.len() implies init[l].1 != init[j].1 by {
            assert(init[l] == pairs[l]);
        }
        lemma_pointer_map_last_wins(init, j);
        assert(pairs.last().1 != pairs[j].1);
    }
}

/// The pointer map holds no position that no pair names.
pub proof fn lemma_pointer_map_unnamed(pairs: Seq<(u32, u32)>, k: usize)
    requires
        forall|j: int| 0 <= j < pairs.len() ==> pairs[j].1 as usize != k,
    ensures
        !spec_pointer_map(pairs).contains_key(k),
    decreases pairs.len(),
{
    if pairs.len() > 0 {
        let init = pairs.drop_last();
        assert forall|j: int| 0 <= j < init.len() implies init[j].1 as usize != k by {
            assert(init[j] == pairs[j]);
        }
        lemma_pointer_map_unnamed(init, k);
        assert(pairs[pairs.len() - 1].1 as usize != k);
    }
}

/// The pointer file holds as many pairs as its first word counts; pair `i`
/// is the file id at `4 + 8 * i` and the position at `8 + 8 * i`.
pub proof fn lemma_pointer_table_layout(s: Seq<u8>)
    ensures
        spec_pointer_table(s) matches Ok(pairs) ==> {
            &&& pairs.len() == u32_le(s, 0)
            &&& 4 + 8 * pairs.len() <= s.len()
            &&& forall|i: int| 0 <= i < pairs.len() ==> (#[trigger] pairs[i]).0 == u32_le(s, 4 + 8 * i) && pairs[i].1 == u32_le(s, 8 + 8 * i)
        },
{
}

/// The pointer file reads exactly when it holds its count and that many
/// 8-byte pairs; otherwise it is short.
pub proof fn lemma_pointer_table_outcome(s: Seq<u8>)
    ensures
        spec_pointer_table(s) is Ok <==> s.len() >= 4 && 4 + 8 * (u32_le(s, 0) as int) <= s.len(),
        spec_pointer_table(s) matches Err(e) ==> e == ParseError::Eof,
{
}

} // verus!
