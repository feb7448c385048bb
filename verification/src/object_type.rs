//! Object type names: a linked list of records, each with a name.

use vstd::prelude::*;
use crate::error::ParseError;
use crate::bytes::{u16_le, u32_le, name_at, spec_offset_target, read_u8, read_u16, read_u32,
    read_name, offset_target};
use crate::sequence::{at_view, prepend, spec_count, lemma_count_step, lemma_count_done, lemma_count_len};

verus! {

/// An object type; `N` is the name's representation.
#[derive(Debug)]
pub struct ObjectTypeRecord<N> {
    pub name: N,
    pub unk1: u8,
    pub id: u8,
    pub unk2: u16,
}

pub type ObjectType = ObjectTypeRecord<String>;

pub type ObjectTypeView = ObjectTypeRecord<Seq<char>>;

impl View for ObjectTypeRecord<String> {
    type V = ObjectTypeView;

    open spec fn view(&self) -> ObjectTypeView {
        ObjectTypeRecord { name: self.name@, unk1: self.unk1, id: self.id, unk2: self.unk2 }
    }
}

/// A sequence of object types by their views.
pub open spec fn object_types_view(v: Seq<ObjectType>) -> Seq<ObjectTypeView> {
    v.map_values(|o: ObjectType| o@)
}

/// The object type record at `pos` of the level: next-link, previous-link,
/// header and name offsets, two bytes and a 16-bit field (20 bytes). The
/// parse continues where the next-link leads; the name lies where the name
/// offset leads.
pub open spec fn spec_object_type(s: Seq<u8>, pos: int) -> Result<(int, ObjectTypeView), ParseError> {
    if pos < 0 || pos + 20 > s.len() {
        Err(ParseError::Eof)
    } else {
        match spec_offset_target(s.len() as int, u32_le(s, pos + 12)) {
            Err(e) => Err(e),
            Ok(name_pos) => match spec_offset_target(s.len() as int, u32_le(s, pos)) {
                Err(e) => Err(e),
                Ok(next) => Ok((next, ObjectTypeRecord {
                    name: name_at(s, name_pos),
                    unk1: s[pos + 16],
                    id: s[pos + 17],
                    unk2: u16_le(s, pos + 18),
                })),
            },
        }
    }
}

/// Reading an object type record, as a step of a count.
pub open spec fn object_type_step(s: Seq<u8>) -> spec_fn(int) -> Result<(int, ObjectTypeView), ParseError> {
    |p: int| spec_object_type(s, p)
}

/// The object type list header at `pos`: first and last links and the
/// count (12 bytes); the list itself starts where the first link leads and
/// follows the next-links, one record per count.
pub open spec fn spec_object_type_list(s: Seq<u8>, pos: int) -> Result<(int, Seq<ObjectTypeView>), ParseError> {
    if pos < 0 || pos + 12 > s.len() {
        Err(ParseError::Eof)
    } else {
        match spec_offset_target(s.len() as int, u32_le(s, pos)) {
            Err(e) => Err(e),
            Ok(first) => match spec_count(object_type_step(s), first, u32_le(s, pos + 8) as nat) {
                Err(e) => Err(e),
                Ok((_, objs)) => Ok((pos + 12, objs)),
            },
        }
    }
}

/// Reads the object type record at `pos` of `buffer` (see `spec_object_type`).
pub fn object_type(buffer: &[u8], pos: usize) -> (r: Result<(usize, ObjectType), ParseError>)
    ensures
        at_view(r) == spec_object_type(buffer@, pos as int),
{
    let off_names_next = read_u32(buffer, pos)?;
    let _off_names_prev = read_u32(buffer, pos + 4)?;
    let _off_header = read_u32(buffer, pos + 8)?;
    let off_name = read_u32(buffer, pos + 12)?;
    let unk1 = read_u8(buffer, pos + 16)?;
    let id = read_u8(buffer, pos + 17)?;
    let unk2 = read_u16(buffer, pos + 18)?;
    let name_pos = offset_target(buffer, off_name)?;
    let name = read_name(buffer, name_pos);
    let next = offset_target(buffer, off_names_next)?;
    Ok((next, ObjectTypeRecord { name, unk1, id, unk2 }))
}

/// Reads the object type list at `pos` of `buffer` (see
/// `spec_object_type_list`).
pub fn object_type_list(buffer: &[u8], pos: usize) -> (r: Result<(usize, Vec<ObjectType>), ParseError>)
    ensures
        match r {
            Ok((p, objs)) => spec_object_type_list(buffer@, pos as int) == Ok::<(int, Seq<ObjectTypeView>), ParseError>((p as int, object_types_view(objs@))),
            Err(e) => spec_object_type_list(buffer@, pos as int) == Err::<(int, Seq<ObjectTypeView>), ParseError>(e),
        },
{
    let off_names_first = read_u32(buffer, pos)?;
    let _off_names_last = read_u32(buffer, pos + 4)?;
    let num_names = read_u32(buffer, pos + 8)?;
    let first = offset_target(buffer, off_names_first)?;
    let mut objs: Vec<ObjectType> = Vec::new();
    let mut p = first;
    let mut i: u32 = 0;
    while i < num_names
        invariant
            i <= num_names,
            pos + 12 <= buffer@.len() <= usize::MAX,
            spec_object_type_list(buffer@, pos as int) == match spec_count(object_type_step(buffer@), first as int, num_names as nat) {
                Err(e) => Err(e),
                Ok((_, objs)) => Ok::<(int, Seq<ObjectTypeView>), ParseError>((pos + 12, objs)),
            },
            spec_count(object_type_step(buffer@), first as int, num_names as nat) == prepend(
                object_types_view(objs@),
                spec_count(object_type_step(buffer@), p as int, (num_names - i) as nat),
            ),
        decreases num_names - i,
    {
        let ghost before = objs@;
        let ghost m = (num_names - i) as nat;
        let ghost old_p = p;
        let (next, o) = object_type(buffer, p)?;
        objs.push(o);
        p = next;
        i = i + 1;
        proof {
            assert(object_types_view(objs@) == object_types_view(before).push(o@));
            lemma_count_step(object_type_step(buffer@), object_types_view(before), old_p as int, m, next as int, o@);
        }
    }
    proof {
        lemma_count_done(object_type_step(buffer@), object_types_view(objs@), p as int);
    }
    Ok((pos + 12, objs))
}

/// Reading an object type list header, as a step of a count.
pub open spec fn object_type_list_step(s: Seq<u8>) -> spec_fn(int) -> Result<(int, Seq<ObjectTypeView>), ParseError> {
    |p: int| spec_object_type_list(s, p)
}

/// An object type list that reads holds as many records as its count field
/// says, and the parse moves past its 12-byte header alone.
pub proof fn lemma_object_type_list_len(s: Seq<u8>, pos: int)
    ensures
        spec_object_type_list(s, pos) matches Ok((q, objs)) ==> q == pos + 12 && objs.len() == u32_le(s, pos + 8),
{
    if 0 <= pos && pos + 12 <= s.len() {
        if let Ok(first) = spec_offset_target(s.len() as int, u32_le(s, pos)) {
            lemma_count_len(object_type_step(s), first, u32_le(s, pos + 8) as nat);
        }
    }
}

/// An object type read at `pos` has its name where the name offset at
/// `pos + 12` leads, the bytes at `pos + 16` and `pos + 17`, the 16-bit value
/// at `pos + 18`, and continues where the next-link at `pos` leads.
pub proof fn lemma_object_type_layout(s: Seq<u8>, pos: int)
    ensures
        spec_object_type(s, pos) matches Ok((q, o)) ==> {
            &&& 0 <= pos && pos + 20 <= s.len()
            &&& q == u32_le(s, pos) + 4
            &&& q <= s.len()
            &&& u32_le(s, pos + 12) + 4 <= s.len()
            &&& o.name == name_at(s, u32_le(s, pos + 12) + 4)
            &&& o.unk1 == s[pos + 16]
            &&& o.id == s[pos + 17]
            &&& o.unk2 == u16_le(s, pos + 18)
        },
{
}

/// The position of the `i`-th record of a linked list whose first record is
/// at `p`: each record's first word, plus four, leads to the next.
pub open spec fn link_pos(s: Seq<u8>, p: int, i: nat) -> int
    decreases i,
{
    if i == 0 { p } else { u32_le(s, link_pos(s, p, (i - 1) as nat)) + 4 }
}

/// Following `n` links from `p` reads, as its `i`-th value, the object type
/// at the `i`-th link.
pub proof fn lemma_object_chain(s: Seq<u8>, p: int, n: nat)
    ensures
        spec_count(object_type_step(s), p, n) matches Ok((_, v)) ==> {
            &&& v.len() == n
            &&& forall|i: int| 0 <= i < n ==> (#[trigger] spec_object_type(s, link_pos(s, p, i as nat))) is Ok && spec_object_type(s, link_pos(s, p, i as nat))->Ok_0.1 == v[i]
        },
    decreases n,
{
    if n > 0 {
        if let Ok((next, o0)) = spec_object_type(s, p) {
            lemma_object_chain(s, next, (n - 1) as nat);
            if let Ok((_, v)) = spec_count(object_type_step(s), p, n) {
                let rest = spec_count(object_type_step(s), next, (n - 1) as nat)->Ok_0.1;
                assert forall|i: int| 0 <= i < n implies (#[trigger] spec_object_type(s, link_pos(s, p, i as nat))) is Ok && spec_object_type(s, link_pos(s, p, i as nat))->Ok_0.1 == v[i] by {
                    if i > 0 {
                        lemma_link_pos_shift(s, p, next, (i - 1) as nat);
                        assert(spec_object_type(s, link_pos(s, next, (i - 1) as nat)) is Ok && spec_object_type(s, link_pos(s, next, (i - 1) as nat))->Ok_0.1 == rest[i - 1]);
                    }
                }
            }
        }
        lemma_count_len(object_type_step(s), p, n);
    }
}

/// The `i + 1`-th link from `p` is the `i`-th from where `p`'s link leads.
pub proof fn lemma_link_pos_shift(s: Seq<u8>, p: int, next: int, i: nat)
    requires
        next == u32_le(s, p) + 4,
    ensures
        link_pos(s, p, i + 1) == link_pos(s, next, i),
    decreases i,
{
    assert(link_pos(s, p, i + 1) == u32_le(s, link_pos(s, p, i)) + 4);
    if i > 0 {
        lemma_link_pos_shift(s, p, next, (i - 1) as nat);
        assert(link_pos(s, p, i) == link_pos(s, p, ((i - 1) as nat) + 1));
        assert(link_pos(s, next, i) == u32_le(s, link_pos(s, next, (i - 1) as nat)) + 4);
    }
}

/// An object type list read at `pos` moves past its 12-byte header; it holds
/// as many object types as the count at `pos + 8`, the `i`-th being the
/// record at the `i`-th link from where the first-link at `pos` leads.
pub proof fn lemma_object_type_list_layout(s: Seq<u8>, pos: int)
    ensures
        spec_object_type_list(s, pos) matches Ok((q, objs)) ==> {
            &&& q == pos + 12
            &&& objs.len() == u32_le(s, pos + 8)
            &&& forall|i: int| 0 <= i < objs.len() ==> (#[trigger] spec_object_type(s, link_pos(s, u32_le(s, pos) + 4, i as nat))) is Ok && spec_object_type(s, link_pos(s, u32_le(s, pos) + 4, i as nat))->Ok_0.1 == objs[i]
        },
{
    if let Ok((q, objs)) = spec_object_type_list(s, pos) {
        lemma_object_chain(s, u32_le(s, pos) + 4, u32_le(s, pos + 8) as nat);
    }
}

/// When an object type read succeeds: its 20 bytes must fit, and the name
/// offset and the next-link (each plus four) must lie inside the level;
/// a name offset past the end is reported before a next-link past the end.
pub proof fn lemma_object_type_outcome(s: Seq<u8>, pos: int)
    requires
        0 <= pos,
    ensures
        pos + 20 > s.len() ==> spec_object_type(s, pos) == Err::<(int, ObjectTypeView), ParseError>(ParseError::Eof),
        pos + 20 <= s.len() && u32_le(s, pos + 12) + 4 > s.len() ==> spec_object_type(s, pos) == Err::<(int, ObjectTypeView), ParseError>(ParseError::OutOfBounds),
        pos + 20 <= s.len() && u32_le(s, pos + 12) + 4 <= s.len() && u32_le(s, pos) + 4 > s.len() ==> spec_object_type(s, pos) == Err::<(int, ObjectTypeView), ParseError>(ParseError::OutOfBounds),
        pos + 20 <= s.len() && u32_le(s, pos + 12) + 4 <= s.len() && u32_le(s, pos) + 4 <= s.len() ==> spec_object_type(s, pos) is Ok,
{
}

} // verus!
