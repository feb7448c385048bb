//! The buffers that the level parsers read, and how a texture's file is
//! chosen through the pointer table.

use std::collections::HashMap;
use vstd::prelude::*;
use crate::error::ParseError;

verus! {

/// The loaded level: the fixed level file (file id 0), the main level file
/// (file id 1, the one that every parse position refers to) and the pointer
/// table, which maps a position of the main level (the offset word's
/// position minus four) to the id of the file that the stored offset points
/// into.
pub struct LevelFiles<'a> {
    pub fix: &'a [u8],
    pub main: &'a [u8],
    pub pointers: HashMap<usize, usize>,
}

/// The contents of a `LevelFiles`.
pub struct FilesView {
    pub fix: Seq<u8>,
    pub main: Seq<u8>,
    pub pointers: Map<usize, usize>,
}

impl<'a> View for LevelFiles<'a> {
    type V = FilesView;

    open spec fn view(&self) -> FilesView {
        FilesView { fix: self.fix@, main: self.main@, pointers: self.pointers@ }
    }
}

/// The file that an offset word at `pos` of the main level points into: the
/// pointer table's entry for `pos - 4`, and the main level (1) without one.
pub open spec fn file_id_at(f: FilesView, pos: int) -> usize {
    let key = (pos - 4) as usize;
    if f.pointers.contains_key(key) { f.pointers[key] } else { 1 }
}

/// The bytes of file `id` (0 the fixed level, otherwise the main level).
pub open spec fn file_bytes(f: FilesView, id: usize) -> Seq<u8> {
    if id == 0 { f.fix } else { f.main }
}

/// The file id that the pointer table gives the offset word at `pos`.
pub fn file_id_for(files: &LevelFiles, pos: usize) -> (id: usize)
    requires
        4 <= pos,
    ensures
        id == file_id_at(files@, pos as int),
{
    broadcast use vstd::std_specs::hash::group_hash_axioms;
    let data_stream_offset = pos - 4;
    match files.pointers.get(&data_stream_offset) {
        Some(id) => *id,
        None => 1,
    }
}

} // verus!
