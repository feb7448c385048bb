//! The level header: globals, the world header and the lists they name.

use vstd::prelude::*;
use crate::error::ParseError;
use crate::bytes::{u16_le, u32_le, read_u8, read_u16, read_u32};

verus! {

/// The head, tail and element count of a linked list stored in the level.
#[derive(Debug, Clone, Copy, PartialEq, Eq, Structural)]
pub struct ListHeader {
    pub head: u32,
    pub tail: u32,
    pub num_elements: u32,
}

impl View for ListHeader {
    type V = ListHeader;

    open spec fn view(&self) -> ListHeader {
        *self
    }
}

/// The list header stored at `p` of `s`.
pub open spec fn list_header_record(s: Seq<u8>, p: int) -> ListHeader {
    ListHeader { head: u32_le(s, p), tail: u32_le(s, p + 4), num_elements: u32_le(s, p + 8) }
}

/// Reading a list header at `p` (12 bytes).
pub open spec fn spec_list_header(s: Seq<u8>, p: int) -> Result<ListHeader, ParseError> {
    if p < 0 || p + 12 > s.len() {
        Err(ParseError::Eof)
    } else {
        Ok(list_header_record(s, p))
    }
}

/// Reads the list header at `p` of `s`.
pub fn list_header(s: &[u8], p: usize) -> (r: Result<ListHeader, ParseError>)
    ensures
        r == spec_list_header(s@, p as int),
{
    let head = read_u32(s, p)?;
    let tail = read_u32(s, p + 4)?;
    let num_elements = read_u32(s, p + 8)?;
    Ok(ListHeader { head, tail, num_elements })
}

/// The global offsets of a level. The last three describe the "always"
/// structure: `num_always` reusable super objects from
/// `off_always_reusable_so`, with blocks of 0x2c and of 4 bytes each.
#[derive(Debug, Clone, Copy, PartialEq, Eq, Structural)]
pub struct Globals {
    pub off_actual_world: usize,
    pub off_dynamic_world: usize,
    pub off_inactive_dynamic_world: usize,
    pub off_father_sector: usize,
    pub off_first_sub_map_position: usize,
    pub num_always: u32,
    pub off_always_reusable_so: usize,
    pub off_always_reusable_unknown1: usize,
    pub off_always_reusable_unknown2: usize,
}

impl View for Globals {
    type V = Globals;

    open spec fn view(&self) -> Globals {
        *self
    }
}

/// The globals block at `g`: five world offsets, the "always" count, the
/// spawnable characters' list header, and three "always" offsets (48
/// bytes). Yields the globals and that list header.
pub open spec fn spec_globals(s: Seq<u8>, g: int) -> Result<(Globals, ListHeader), ParseError> {
    if g < 0 || g + 48 > s.len() {
        Err(ParseError::Eof)
    } else {
        Ok((Globals {
            off_actual_world: u32_le(s, g) as usize,
            off_dynamic_world: u32_le(s, g + 4) as usize,
            off_inactive_dynamic_world: u32_le(s, g + 8) as usize,
            off_father_sector: u32_le(s, g + 12) as usize,
            off_first_sub_map_position: u32_le(s, g + 16) as usize,
            num_always: u32_le(s, g + 20),
            off_always_reusable_so: u32_le(s, g + 36) as usize,
            off_always_reusable_unknown1: u32_le(s, g + 40) as usize,
            off_always_reusable_unknown2: u32_le(s, g + 44) as usize,
        }, list_header_record(s, g + 24)))
    }
}

/// Reads the globals block at `g` of `s` (see `spec_globals`).
pub fn globals(s: &[u8], g: usize) -> (r: Result<(Globals, ListHeader), ParseError>)
    ensures
        r == spec_globals(s@, g as int),
{
    let off_actual_world = read_u32(s, g)?;
    let off_dynamic_world = read_u32(s, g + 4)?;
    let off_inactive_dynamic_world = read_u32(s, g + 8)?;
    let off_father_sector = read_u32(s, g + 12)?;
    let off_first_sub_map_position = read_u32(s, g + 16)?;
    let num_always = read_u32(s, g + 20)?;
    let persos = list_header(s, g + 24)?;
    let off_always_reusable_so = read_u32(s, g + 36)?;
    let off_always_reusable_unknown1 = read_u32(s, g + 40)?;
    let off_always_reusable_unknown2 = read_u32(s, g + 44)?;
    Ok((Globals {
        off_actual_world: off_actual_world as usize,
        off_dynamic_world: off_dynamic_world as usize,
        off_inactive_dynamic_world: off_inactive_dynamic_world as usize,
        off_father_sector: off_father_sector as usize,
        off_first_sub_map_position: off_first_sub_map_position as usize,
        num_always,
        off_always_reusable_so: off_always_reusable_so as usize,
        off_always_reusable_unknown1: off_always_reusable_unknown1 as usize,
        off_always_reusable_unknown2: off_always_reusable_unknown2 as usize,
    }, persos))
}

/// The world header that follows the object type lists (152 bytes).
#[derive(Debug, Clone, Copy, PartialEq, Eq, Structural)]
pub struct WorldHeader {
    pub off_light: u32,
    pub off_character_launching_sound_events: u32,
    pub off_collision_geo_obj: u32,
    pub off_static_collision_geo_obj: u32,
    pub viewport: u32,
    pub unknown_list: ListHeader,
    pub families: ListHeader,
    pub always_active_characters: ListHeader,
    pub main_characters: ListHeader,
    pub unk_no_transit_pref: u32,
    pub unk_sol0: u32,
    pub unk_sol1: u32,
    pub unk_sol2: u32,
    pub cinematic_manager: u32,
    pub unk0: u8,
    pub ipo_num_rli_tables: u8,
    pub unk1: u16,
    pub off_col_tagged_faces_table: u32,
    pub num_col_max_tagged_faces: u32,
    pub off_collision_geo_obj2: u32,
    pub off_static_collision_geo_obj2: u32,
    pub unk2_ptrs_table_sound: u32,
    pub num_ptrs_table: u32,
    pub off_ptrs_table: u32,
    pub off_internal_structure_first: u32,
    pub off_internal_structure_last: u32,
    pub num_unk: u32,
    pub unk_first: u32,
    pub unk_last: u32,
    pub num_visual_materials: u32,
    pub off_array_visual_materials: u32,
    pub off_dynamic_so_list: u32,
}

impl View for WorldHeader {
    type V = WorldHeader;

    open spec fn view(&self) -> WorldHeader {
        *self
    }
}

/// Bytes of the world header.
pub open spec fn world_header_len() -> int {
    152
}

/// The world header stored at `h` of `s`.
pub open spec fn world_header_record(s: Seq<u8>, h: int) -> WorldHeader {
    WorldHeader {
        off_light: u32_le(s, h + 0),
        off_character_launching_sound_events: u32_le(s, h + 4),
        off_collision_geo_obj: u32_le(s, h + 8),
        off_static_collision_geo_obj: u32_le(s, h + 12),
        viewport: u32_le(s, h + 16),
        unknown_list: list_header_record(s, h + 20),
        families: list_header_record(s, h + 32),
        always_active_characters: list_header_record(s, h + 44),
        main_characters: list_header_record(s, h + 56),
        unk_no_transit_pref: u32_le(s, h + 68),
        unk_sol0: u32_le(s, h + 72),
        unk_sol1: u32_le(s, h + 76),
        unk_sol2: u32_le(s, h + 80),
        cinematic_manager: u32_le(s, h + 84),
        unk0: s[h + 88],
        ipo_num_rli_tables: s[h + 89],
        unk1: u16_le(s, h + 90),
        off_col_tagged_faces_table: u32_le(s, h + 92),
        num_col_max_tagged_faces: u32_le(s, h + 96),
        off_collision_geo_obj2: u32_le(s, h + 100),
        off_static_collision_geo_obj2: u32_le(s, h + 104),
        unk2_ptrs_table_sound: u32_le(s, h + 108),
        num_ptrs_table: u32_le(s, h + 112),
        off_ptrs_table: u32_le(s, h + 116),
        off_internal_structure_first: u32_le(s, h + 120),
        off_internal_structure_last: u32_le(s, h + 124),
        num_unk: u32_le(s, h + 128),
        unk_first: u32_le(s, h + 132),
        unk_last: u32_le(s, h + 136),
        num_visual_materials: u32_le(s, h + 140),
        off_array_visual_materials: u32_le(s, h + 144),
        off_dynamic_so_list: u32_le(s, h + 148),
    }
}

/// Reading the world header at `h`.
pub open spec fn spec_world_header(s: Seq<u8>, h: int) -> Result<WorldHeader, ParseError> {
    if h < 0 || h + world_header_len() > s.len() {
        Err(ParseError::Eof)
    } else {
        Ok(world_header_record(s, h))
    }
}

/// Reads the world header at `h` of `s` (see `spec_world_header`).
pub fn world_header(s: &[u8], h: usize) -> (r: Result<WorldHeader, ParseError>)
    ensures
        r == spec_world_header(s@, h as int),
{
    let off_light = read_u32(s, h + 0)?;
    let off_character_launching_sound_events = read_u32(s, h + 4)?;
    let off_collision_geo_obj = read_u32(s, h + 8)?;
    let off_static_collision_geo_obj = read_u32(s, h + 12)?;
    let viewport = read_u32(s, h + 16)?;
    let unknown_list_head = read_u32(s, h + 20)?;
    let unknown_list_tail = read_u32(s, h + 24)?;
    let unknown_list_num = read_u32(s, h + 28)?;
    let families_head = read_u32(s, h + 32)?;
    let families_tail = read_u32(s, h + 36)?;
    let families_num = read_u32(s, h + 40)?;
    let always_active_characters_head = read_u32(s, h + 44)?;
    let always_active_characters_tail = read_u32(s, h + 48)?;
    let always_active_characters_num = read_u32(s, h + 52)?;
    let main_characters_head = read_u32(s, h + 56)?;
    let main_characters_tail = read_u32(s, h + 60)?;
    let main_characters_num = read_u32(s, h + 64)?;
    let unk_no_transit_pref = read_u32(s, h + 68)?;
    let unk_sol0 = read_u32(s, h + 72)?;
    let unk_sol1 = read_u32(s, h + 76)?;
    let unk_sol2 = read_u32(s, h + 80)?;
    let cinematic_manager = read_u32(s, h + 84)?;
    let unk0 = read_u8(s, h + 88)?;
    let ipo_num_rli_tables = read_u8(s, h + 89)?;
    let unk1 = read_u16(s, h + 90)?;
    let off_col_tagged_faces_table = read_u32(s, h + 92)?;
    let num_col_max_tagged_faces = read_u32(s, h + 96)?;
    let off_collision_geo_obj2 = read_u32(s, h + 100)?;
    let off_static_collision_geo_obj2 = read_u32(s, h + 104)?;
    let unk2_ptrs_table_sound = read_u32(s, h + 108)?;
    let num_ptrs_table = read_u32(s, h + 112)?;
    let off_ptrs_table = read_u32(s, h + 116)?;
    let off_internal_structure_first = read_u32(s, h + 120)?;
    let off_internal_structure_last = read_u32(s, h + 124)?;
    let num_unk = read_u32(s, h + 128)?;
    let unk_first = read_u32(s, h + 132)?;
    let unk_last = read_u32(s, h + 136)?;
    let num_visual_materials = read_u32(s, h + 140)?;
    let off_array_visual_materials = read_u32(s, h + 144)?;
    let off_dynamic_so_list = read_u32(s, h + 148)?;
    Ok(WorldHeader {
        off_light,
        off_character_launching_sound_events,
        off_collision_geo_obj,
        off_static_collision_geo_obj,
        viewport,
        unknown_list: ListHeader { head: unknown_list_head, tail: unknown_list_tail, num_elements: unknown_list_num },
        families: ListHeader { head: families_head, tail: families_tail, num_elements: families_num },
        always_active_characters: ListHeader { head: always_active_characters_head, tail: always_active_characters_tail, num_elements: always_active_characters_num },
        main_characters: ListHeader { head: main_characters_head, tail: main_characters_tail, num_elements: main_characters_num },
        unk_no_transit_pref,
        unk_sol0,
        unk_sol1,
        unk_sol2,
        cinematic_manager,
        unk0,
        ipo_num_rli_tables,
        unk1,
        off_col_tagged_faces_table,
        num_col_max_tagged_faces,
        off_collision_geo_obj2,
        off_static_collision_geo_obj2,
        unk2_ptrs_table_sound,
        num_ptrs_table,
        off_ptrs_table,
        off_internal_structure_first,
        off_internal_structure_last,
        num_unk,
        unk_first,
        unk_last,
        num_visual_materials,
        off_array_visual_materials,
        off_dynamic_so_list,
    })
}

/// A list header read at `p` is the head, tail and count words at `p`,
/// `p + 4` and `p + 8`.
pub proof fn lemma_list_header_layout(s: Seq<u8>, p: int)
    ensures
        spec_list_header(s, p) matches Ok(l) ==> {
            &&& 0 <= p && p + 12 <= s.len()
            &&& l.head == u32_le(s, p)
            &&& l.tail == u32_le(s, p + 4)
            &&& l.num_elements == u32_le(s, p + 8)
        },
{
}

/// The globals block read at `g` is twelve words in file order: five world
/// offsets, the "always" count, the spawnable characters' list (head, tail,
/// count) and three "always" offsets.
pub proof fn lemma_globals_layout(s: Seq<u8>, g: int)
    ensures
        spec_globals(s, g) matches Ok((gl, persos)) ==> {
            &&& 0 <= g && g + 48 <= s.len()
            &&& gl.off_actual_world == u32_le(s, g) as usize
            &&& gl.off_dynamic_world == u32_le(s, g + 4) as usize
            &&& gl.off_inactive_dynamic_world == u32_le(s, g + 8) as usize
            &&& gl.off_father_sector == u32_le(s, g + 12) as usize
            &&& gl.off_first_sub_map_position == u32_le(s, g + 16) as usize
            &&& gl.num_always == u32_le(s, g + 20)
            &&& persos.head == u32_le(s, g + 24)
            &&& persos.tail == u32_le(s, g + 28)
            &&& persos.num_elements == u32_le(s, g + 32)
            &&& gl.off_always_reusable_so == u32_le(s, g + 36) as usize
            &&& gl.off_always_reusable_unknown1 == u32_le(s, g + 40) as usize
            &&& gl.off_always_reusable_unknown2 == u32_le(s, g + 44) as usize
        },
{
}

/// The world header read at `h` takes 152 bytes; each field is the value at
/// its own offset, in file order.
pub proof fn lemma_world_header_layout(s: Seq<u8>, h: int)
    ensures
        spec_world_header(s, h) matches Ok(w) ==> {
            &&& 0 <= h && h + 152 <= s.len()
            &&& w.off_light == u32_le(s, h + 0)
            &&& w.off_character_launching_sound_events == u32_le(s, h + 4)
            &&& w.off_collision_geo_obj == u32_le(s, h + 8)
            &&& w.off_static_collision_geo_obj == u32_le(s, h + 12)
            &&& w.viewport == u32_le(s, h + 16)
            &&& w.unknown_list.head == u32_le(s, h + 20)
            &&& w.unknown_list.tail == u32_le(s, h + 24)
            &&& w.unknown_list.num_elements == u32_le(s, h + 28)
            &&& w.families.head == u32_le(s, h + 32)
            &&& w.families.tail == u32_le(s, h + 36)
            &&& w.families.num_elements == u32_le(s, h + 40)
            &&& w.always_active_characters.head == u32_le(s, h + 44)
            &&& w.always_active_characters.tail == u32_le(s, h + 48)
            &&& w.always_active_characters.num_elements == u32_le(s, h + 52)
            &&& w.main_characters.head == u32_le(s, h + 56)
            &&& w.main_characters.tail == u32_le(s, h + 60)
            &&& w.main_characters.num_elements == u32_le(s, h + 64)
            &&& w.unk_no_transit_pref == u32_le(s, h + 68)
            &&& w.unk_sol0 == u32_le(s, h + 72)
            &&& w.unk_sol1 == u32_le(s, h + 76)
            &&& w.unk_sol2 == u32_le(s, h + 80)
            &&& w.cinematic_manager == u32_le(s, h + 84)
            &&& w.unk0 == s[h + 88]
            &&& w.ipo_num_rli_tables == s[h + 89]
            &&& w.unk1 == u16_le(s, h + 90)
            &&& w.off_col_tagged_faces_table == u32_le(s, h + 92)
            &&& w.num_col_max_tagged_faces == u32_le(s, h + 96)
            &&& w.off_collision_geo_obj2 == u32_le(s, h + 100)
            &&& w.off_static_collision_geo_obj2 == u32_le(s, h + 104)
            &&& w.unk2_ptrs_table_sound == u32_le(s, h + 108)
            &&& w.num_ptrs_table == u32_le(s, h + 112)
            &&& w.off_ptrs_table == u32_le(s, h + 116)
            &&& w.off_internal_structure_first == u32_le(s, h + 120)
            &&& w.off_internal_structure_last == u32_le(s, h + 124)
            &&& w.num_unk == u32_le(s, h + 128)
            &&& w.unk_first == u32_le(s, h + 132)
            &&& w.unk_last == u32_le(s, h + 136)
            &&& w.num_visual_materials == u32_le(s, h + 140)
            &&& w.off_array_visual_materials == u32_le(s, h + 144)
            &&& w.off_dynamic_so_list == u32_le(s, h + 148)
        },
{
}

/// The fixed-size blocks read exactly when they fit: 12 bytes for a list
/// header, 48 for the globals, 152 for the world header.
pub proof fn lemma_header_outcome(s: Seq<u8>, p: int)
    requires
        0 <= p,
    ensures
        spec_list_header(s, p) is Ok <==> p + 12 <= s.len(),
        spec_globals(s, p) is Ok <==> p + 48 <= s.len(),
        spec_world_header(s, p) is Ok <==> p + 152 <= s.len(),
        spec_list_header(s, p) matches Err(e) ==> e == ParseError::Eof,
        spec_globals(s, p) matches Err(e) ==> e == ParseError::Eof,
        spec_world_header(s, p) matches Err(e) ==> e == ParseError::Eof,
{
}

} // verus!
