//! A whole level: the main level file read from its header on, with the
//! pointer file and the fixed level file.

use vstd::prelude::*;
use crate::error::ParseError;
use crate::bytes::{u32_le, spec_u32, spec_offset_target, read_u32, offset_target};
use crate::files::{LevelFiles, FilesView};
use crate::sequence::{prepend, spec_count, lemma_count_step, lemma_count_done, lemma_count_len, lemma_count_stride};
use crate::texture::{TextureInfo, TextureInfoView, opt_texture_view, spec_texture, texture_step, texture, lemma_texture_shape};
use crate::object_type::{ObjectType, ObjectTypeView, object_types_view, object_type_list_step, object_type_list, spec_object_type_list, lemma_object_type_list_len};
use crate::material::{VisualMaterial, VisualMaterialView, material_step, visual_material, spec_visual_material, lemma_material_layout};
use crate::header::{Globals, ListHeader, WorldHeader, spec_globals, spec_world_header, spec_list_header,
    globals, world_header, list_header};
use crate::pointers::{spec_pointer_table, spec_pointer_map, pointer_table, pointer_map, lemma_pointer_table_outcome};

verus! {

/// Textures that a level holds in all, fixed level included.
pub const NUM_TEXTURES_TOTAL: usize = 1024;

/// Position in the main level of the fixed level's texture count.
pub const FIX_TEXTURE_COUNT_POS: usize = 292;

/// What a level holds.
#[derive(Debug)]
pub struct Level {
    /// Textures of the fixed level (the level's own are the rest of
    /// `NUM_TEXTURES_TOTAL`).
    pub num_textures_fix: u32,
    /// The level's own textures, one per offset word.
    pub textures: Vec<Option<TextureInfo>>,
    /// One 32-bit word per texture of the level in all.
    pub texture_counts: Vec<u32>,
    pub light_texture: Option<TextureInfo>,
    pub globals: Globals,
    /// The list of spawnable characters.
    pub persos: ListHeader,
    /// Three object type lists.
    pub object_types: Vec<Vec<ObjectType>>,
    pub header: WorldHeader,
    /// The list header of the dynamic super objects.
    pub dynamic_super_objects: ListHeader,
    pub materials: Vec<VisualMaterial>,
}

/// The contents of a `Level`.
pub struct LevelView {
    pub num_textures_fix: u32,
    pub textures: Seq<Option<TextureInfoView>>,
    pub texture_counts: Seq<u32>,
    pub light_texture: Option<TextureInfoView>,
    pub globals: Globals,
    pub persos: ListHeader,
    pub object_types: Seq<Seq<ObjectTypeView>>,
    pub header: WorldHeader,
    pub dynamic_super_objects: ListHeader,
    pub materials: Seq<VisualMaterialView>,
}

/// Optional textures by their views.
pub open spec fn textures_view(v: Seq<Option<TextureInfo>>) -> Seq<Option<TextureInfoView>> {
    v.map_values(|t: Option<TextureInfo>| opt_texture_view(t))
}

/// Object type lists by their views.
pub open spec fn object_type_lists_view(v: Seq<Vec<ObjectType>>) -> Seq<Seq<ObjectTypeView>> {
    v.map_values(|l: Vec<ObjectType>| object_types_view(l@))
}

/// Visual materials by their views.
pub open spec fn materials_view(v: Seq<VisualMaterial>) -> Seq<VisualMaterialView> {
    v.map_values(|m: VisualMaterial| m@)
}

impl View for Level {
    type V = LevelView;

    open spec fn view(&self) -> LevelView {
        LevelView {
            num_textures_fix: self.num_textures_fix,
            textures: textures_view(self.textures@),
            texture_counts: self.texture_counts@,
            light_texture: opt_texture_view(self.light_texture),
            globals: self.globals,
            persos: self.persos,
            object_types: object_type_lists_view(self.object_types@),
            header: self.header,
            dynamic_super_objects: self.dynamic_super_objects,
            materials: materials_view(self.materials@),
        }
    }
}

/// `n` consecutive 32-bit fields from `p`, and the position after them.
pub open spec fn spec_u32_array(s: Seq<u8>, p: int, n: nat) -> Result<(int, Seq<u32>), ParseError> {
    if p < 0 || p + 4 * n > s.len() {
        Err(ParseError::Eof)
    } else {
        Ok((p + 4 * n, Seq::new(n, |i: int| u32_le(s, p + 4 * i))))
    }
}

/// The level that the main level `main`, its pointer file `ptr` and the
/// fixed level `fix` hold. In the main level: the fixed level's texture
/// count at 292, then from 296 one texture offset word for each of the level's
/// own textures (1024 less the fixed level's), 1024 words, the light texture's
/// offset word, the globals, three object type list headers and the world
/// header. The dynamic super objects' list header and the visual materials'
/// offset words lie where the world header's offsets lead. Textures are
/// read from the file that the pointer file names for their offset word.
pub open spec fn spec_parse_level(main: Seq<u8>, ptr: Seq<u8>, fix: Seq<u8>) -> Result<LevelView, ParseError> {
    if main.len() < 292 {
        Err(ParseError::OutOfBounds)
    } else {
        match spec_u32(main, 292) {
            Err(e) => Err(e),
            Ok(nfix) => if nfix > 1024 {
                Err(ParseError::TooManyFixTextures)
            } else {
                match spec_pointer_table(ptr) {
                    Err(e) => Err(e),
                    Ok(pairs) => spec_level_body(FilesView { fix, main, pointers: spec_pointer_map(pairs) }, nfix),
                }
            },
        }
    }
}

/// The level read from the texture table on, once the fixed level's texture
/// count `nfix` and the pointer map are known.
pub open spec fn spec_level_body(f: FilesView, nfix: u32) -> Result<LevelView, ParseError> {
    let s = f.main;
    match spec_count(texture_step(f), 296, (1024 - nfix) as nat) {
        Err(e) => Err(e),
        Ok((t, textures)) => match spec_u32_array(s, t, 1024) {
            Err(e) => Err(e),
            Ok((l, counts)) => match spec_texture(f, l) {
                Err(e) => Err(e),
                Ok((g, light)) => match spec_globals(s, g) {
                    Err(e) => Err(e),
                    Ok((globals, persos)) => match spec_count(object_type_list_step(s), g + 48, 3) {
                        Err(e) => Err(e),
                        Ok((h, lists)) => match spec_world_header(s, h) {
                            Err(e) => Err(e),
                            Ok(hdr) => match spec_level_tail(f, hdr) {
                                Err(e) => Err(e),
                                Ok((dso, mats)) => Ok(LevelView {
                                    num_textures_fix: nfix,
                                    textures,
                                    texture_counts: counts,
                                    light_texture: light,
                                    globals,
                                    persos,
                                    object_types: lists,
                                    header: hdr,
                                    dynamic_super_objects: dso,
                                    materials: mats,
                                }),
                            },
                        },
                    },
                },
            },
        },
    }
}

/// The dynamic super objects' list header and the visual materials, where
/// the world header `hdr` leads.
pub open spec fn spec_level_tail(f: FilesView, hdr: WorldHeader) -> Result<(ListHeader, Seq<VisualMaterialView>), ParseError> {
    let s = f.main;
    match spec_offset_target(s.len() as int, hdr.off_dynamic_so_list) {
        Err(e) => Err(e),
        Ok(d) => match spec_list_header(s, d) {
            Err(e) => Err(e),
            Ok(dso) => match spec_offset_target(s.len() as int, hdr.off_array_visual_materials) {
                Err(e) => Err(e),
                Ok(v) => match spec_count(material_step(f), v, hdr.num_visual_materials as nat) {
                    Err(e) => Err(e),
                    Ok((_, mats)) => Ok((dso, mats)),
                },
            },
        },
    }
}

/// A table of `n` texture offset words from `p` ends `4 * n` bytes on.
pub proof fn lemma_texture_table_len(f: FilesView, p: int, n: nat)
    ensures
        spec_count(texture_step(f), p, n) matches Ok((q, v)) ==> q == p + 4 * n && v.len() == n,
    decreases n,
{
    if n > 0 {
        lemma_texture_table_len(f, p + 4, (n - 1) as nat);
    }
}

/// Reads `n` consecutive 32-bit fields from `p` (see `spec_u32_array`).
pub fn u32_array(s: &[u8], p: usize, n: usize) -> (r: Result<(usize, Vec<u32>), ParseError>)
    ensures
        match r {
            Ok((q, v)) => spec_u32_array(s@, p as int, n as nat) == Ok::<(int, Seq<u32>), ParseError>((q as int, v@)),
            Err(e) => spec_u32_array(s@, p as int, n as nat) == Err::<(int, Seq<u32>), ParseError>(e),
        },
{
    if p > s.len() {
        return Err(ParseError::Eof);
    }
    let mut v: Vec<u32> = Vec::new();
    let mut q = p;
    let mut i: usize = 0;
    while i < n
        invariant
            i <= n,
            q == p + 4 * (i as int),
            q <= s@.len() <= usize::MAX,
            v@ == Seq::new(i as nat, |k: int| u32_le(s@, p + 4 * k)),
        decreases n - i,
    {
        let x = read_u32(s, q)?;
        v.push(x);
        q = q + 4;
        i = i + 1;
        assert(v@ =~= Seq::new(i as nat, |k: int| u32_le(s@, p + 4 * k)));
    }
    Ok((q, v))
}

/// Reads `n` textures through consecutive offset words from `p`: `count` of
/// `texture`.
pub fn textures(files: &LevelFiles, p: usize, n: usize) -> (r: Result<(usize, Vec<Option<TextureInfo>>), ParseError>)
    requires
        4 <= p,
    ensures
        match r {
            Ok((q, v)) => spec_count(texture_step(files@), p as int, n as nat) == Ok::<(int, Seq<Option<TextureInfoView>>), ParseError>((q as int, textures_view(v@))),
            Err(e) => spec_count(texture_step(files@), p as int, n as nat) == Err::<(int, Seq<Option<TextureInfoView>>), ParseError>(e),
        },
{
    let mut v: Vec<Option<TextureInfo>> = Vec::new();
    let mut q = p;
    let mut i: usize = 0;
    while i < n
        invariant
            i <= n,
            4 <= q,
            spec_count(texture_step(files@), p as int, n as nat) == prepend(textures_view(v@), spec_count(texture_step(files@), q as int, (n - i) as nat)),
        decreases n - i,
    {
        let ghost before = v@;
        let ghost m = (n - i) as nat;
        let ghost old_q = q;
        let (next, t) = texture(files, q)?;
        v.push(t);
        q = next;
        i = i + 1;
        proof {
            assert(textures_view(v@) == textures_view(before).push(opt_texture_view(t)));
            lemma_count_step(texture_step(files@), textures_view(before), old_q as int, m, next as int, opt_texture_view(t));
        }
    }
    proof {
        lemma_count_done(texture_step(files@), textures_view(v@), q as int);
    }
    Ok((q, v))
}

/// Reads `n` consecutive object type list headers from `p`, with their
/// lists: `count` of `object_type_list`.
pub fn object_type_lists(s: &[u8], p: usize, n: usize) -> (r: Result<(usize, Vec<Vec<ObjectType>>), ParseError>)
    ensures
        match r {
            Ok((q, v)) => spec_count(object_type_list_step(s@), p as int, n as nat) == Ok::<(int, Seq<Seq<ObjectTypeView>>), ParseError>((q as int, object_type_lists_view(v@))),
            Err(e) => spec_count(object_type_list_step(s@), p as int, n as nat) == Err::<(int, Seq<Seq<ObjectTypeView>>), ParseError>(e),
        },
{
    let mut v: Vec<Vec<ObjectType>> = Vec::new();
    let mut q = p;
    let mut i: usize = 0;
    while i < n
        invariant
            i <= n,
            spec_count(object_type_list_step(s@), p as int, n as nat) == prepend(object_type_lists_view(v@), spec_count(object_type_list_step(s@), q as int, (n - i) as nat)),
        decreases n - i,
    {
        let ghost before = v@;
        let ghost m = (n - i) as nat;
        let ghost old_q = q;
        let (next, l) = object_type_list(s, q)?;
        let ghost lv = object_types_view(l@);
        v.push(l);
        q = next;
        i = i + 1;
        proof {
            assert(object_type_lists_view(v@) == object_type_lists_view(before).push(lv));
            lemma_count_step(object_type_list_step(s@), object_type_lists_view(before), old_q as int, m, next as int, lv);
        }
    }
    proof {
        lemma_count_done(object_type_list_step(s@), object_type_lists_view(v@), q as int);
    }
    Ok((q, v))
}

/// Reads `n` visual materials through consecutive offset words from `p`:
/// `count` of `visual_material`.
pub fn materials(files: &LevelFiles, p: usize, n: u32) -> (r: Result<(usize, Vec<VisualMaterial>), ParseError>)
    ensures
        match r {
            Ok((q, v)) => spec_count(material_step(files@), p as int, n as nat) == Ok::<(int, Seq<VisualMaterialView>), ParseError>((q as int, materials_view(v@))),
            Err(e) => spec_count(material_step(files@), p as int, n as nat) == Err::<(int, Seq<VisualMaterialView>), ParseError>(e),
        },
{
    let mut v: Vec<VisualMaterial> = Vec::new();
    let mut q = p;
    let mut i: u32 = 0;
    while i < n
        invariant
            i <= n,
            spec_count(material_step(files@), p as int, n as nat) == prepend(materials_view(v@), spec_count(material_step(files@), q as int, (n - i) as nat)),
        decreases n - i,
    {
        let ghost before = v@;
        let ghost m = (n - i) as nat;
        let ghost old_q = q;
        let (next, mat) = visual_material(files, q)?;
        let ghost mv = mat@;
        v.push(mat);
        q = next;
        i = i + 1;
        proof {
            assert(materials_view(v@) == materials_view(before).push(mv));
            lemma_count_step(material_step(files@), materials_view(before), old_q as int, m, next as int, mv);
        }
    }
    proof {
        lemma_count_done(material_step(files@), materials_view(v@), q as int);
    }
    Ok((q, v))
}

/// Reads a level from its main level file, pointer file and fixed level
/// file (see `spec_parse_level`).
pub fn parse_level(main_lvl: &[u8], main_ptr: &[u8], fix_lvl: &[u8]) -> (r: Result<Level, ParseError>)
    ensures
        match r {
            Ok(level) => spec_parse_level(main_lvl@, main_ptr@, fix_lvl@) == Ok::<LevelView, ParseError>(level@),
            Err(e) => spec_parse_level(main_lvl@, main_ptr@, fix_lvl@) == Err::<LevelView, ParseError>(e),
        },
{
    if main_lvl.len() < FIX_TEXTURE_COUNT_POS {
        return Err(ParseError::OutOfBounds);
    }
    let num_textures_fix = read_u32(main_lvl, FIX_TEXTURE_COUNT_POS)?;
    if num_textures_fix as usize > NUM_TEXTURES_TOTAL {
        return Err(ParseError::TooManyFixTextures);
    }
    let num_textures_lvl = NUM_TEXTURES_TOTAL - num_textures_fix as usize;
    let pairs = pointer_table(main_ptr)?;
    let files = LevelFiles { fix: fix_lvl, main: main_lvl, pointers: pointer_map(&pairs) };
    let ghost f = files@;
    assert(f == FilesView { fix: fix_lvl@, main: main_lvl@, pointers: spec_pointer_map(pairs@) });
    proof {
        lemma_texture_table_len(f, 296, num_textures_lvl as nat);
    }
    let (t, level_textures) = textures(&files, FIX_TEXTURE_COUNT_POS + 4, num_textures_lvl)?;
    let (l, texture_counts) = u32_array(main_lvl, t, NUM_TEXTURES_TOTAL)?;
    let (g, light_texture) = texture(&files, l)?;
    let (level_globals, persos) = globals(main_lvl, g)?;
    let (h, object_types) = object_type_lists(main_lvl, g + 48, 3)?;
    let header = world_header(main_lvl, h)?;
    let d = offset_target(main_lvl, header.off_dynamic_so_list)?;
    let dynamic_super_objects = list_header(main_lvl, d)?;
    let v = offset_target(main_lvl, header.off_array_visual_materials)?;
    let (_, level_materials) = materials(&files, v, header.num_visual_materials)?;
    Ok(Level {
        num_textures_fix,
        textures: level_textures,
        texture_counts,
        light_texture,
        globals: level_globals,
        persos,
        object_types,
        header,
        dynamic_super_objects,
        materials: level_materials,
    })
}

/// A level that reads holds one texture per offset word of its own
/// (1024 less the fixed level's), 1024 texture words, three object type
/// lists and as many visual materials as its world header counts.
pub proof fn lemma_level_shape(main: Seq<u8>, ptr: Seq<u8>, fix: Seq<u8>)
    ensures
        spec_parse_level(main, ptr, fix) matches Ok(lv) ==> {
            &&& lv.num_textures_fix <= 1024
            &&& lv.textures.len() == 1024 - lv.num_textures_fix
            &&& lv.texture_counts.len() == 1024
            &&& lv.object_types.len() == 3
            &&& lv.materials.len() == lv.header.num_visual_materials
        },
{
    if let Ok(lv) = spec_parse_level(main, ptr, fix) {
        let nfix = u32_le(main, 292);
        let pairs = spec_pointer_table(ptr)->Ok_0;
        let f = FilesView { fix, main, pointers: spec_pointer_map(pairs) };
        lemma_texture_table_len(f, 296, (1024 - nfix) as nat);
        let (t, _) = spec_count(texture_step(f), 296, (1024 - nfix) as nat)->Ok_0;
        let (l, _) = spec_u32_array(main, t, 1024)->Ok_0;
        let (g, _) = spec_texture(f, l)->Ok_0;
        lemma_count_len(object_type_list_step(main), g + 48, 3);
        let (h, _) = spec_count(object_type_list_step(main), g + 48, 3)->Ok_0;
        let hdr = spec_world_header(main, h)->Ok_0;
        let v = hdr.off_array_visual_materials + 4;
        lemma_count_len(material_step(f), v, hdr.num_visual_materials as nat);
    }
}

/// Where each part of a level that reads comes from. In the main level the
/// fixed level's texture count is at 292; the level's own textures are those
/// read through the offset words at `296 + 4 * i`; the 1024 texture words
/// follow them; the light texture is the one read through the next word;
/// then come the globals, the three object type lists (12 bytes apart) and
/// the world header. The dynamic super objects' list header and the visual
/// materials (read through consecutive offset words) lie where the world
/// header's offsets lead. Textures use the pointer map of the pointer file.
#[verifier::rlimit(40)]
pub proof fn lemma_level_layout(main: Seq<u8>, ptr: Seq<u8>, fix: Seq<u8>)
    ensures
        spec_parse_level(main, ptr, fix) matches Ok(lv) ==> ({
            let f = FilesView { fix, main, pointers: spec_pointer_map(spec_pointer_table(ptr)->Ok_0) };
            let nfix = lv.num_textures_fix;
            let t = 296 + 4 * (1024 - nfix);
            let l = t + 4096;
            let g = l + 4;
            let h = g + 84;
            let v = lv.header.off_array_visual_materials + 4;
            &&& spec_pointer_table(ptr) is Ok
            &&& nfix == u32_le(main, 292)
            &&& nfix <= 1024
            &&& lv.textures.len() == 1024 - nfix
            &&& forall|i: int| 0 <= i < lv.textures.len() ==> spec_texture(f, 296 + 4 * i)
                == Ok::<(int, Option<TextureInfoView>), ParseError>((296 + 4 * i + 4, #[trigger] lv.textures[i]))
            &&& lv.texture_counts.len() == 1024
            &&& forall|i: int| 0 <= i < 1024 ==> #[trigger] lv.texture_counts[i] == u32_le(main, t + 4 * i)
            &&& spec_texture(f, l) == Ok::<(int, Option<TextureInfoView>), ParseError>((g, lv.light_texture))
            &&& spec_globals(main, g) == Ok::<(Globals, ListHeader), ParseError>((lv.globals, lv.persos))
            &&& lv.object_types.len() == 3
            &&& forall|k: int| 0 <= k < 3 ==> spec_object_type_list(main, g + 48 + 12 * k)
                == Ok::<(int, Seq<ObjectTypeView>), ParseError>((g + 48 + 12 * k + 12, #[trigger] lv.object_types[k]))
            &&& spec_world_header(main, h) == Ok::<WorldHeader, ParseError>(lv.header)
            &&& spec_list_header(main, lv.header.off_dynamic_so_list + 4) == Ok::<ListHeader, ParseError>(lv.dynamic_super_objects)
            &&& lv.materials.len() == lv.header.num_visual_materials
            &&& forall|i: int| 0 <= i < lv.materials.len() ==> spec_visual_material(f, v + 4 * i)
                == Ok::<(int, VisualMaterialView), ParseError>((v + 4 * i + 4, #[trigger] lv.materials[i]))
        }),
{
    if let Ok(lv) = spec_parse_level(main, ptr, fix) {
        let f = FilesView { fix, main, pointers: spec_pointer_map(spec_pointer_table(ptr)->Ok_0) };
        let nfix = u32_le(main, 292);
        assert forall|x: int| (#[trigger] texture_step(f)(x)) is Ok implies texture_step(f)(x)->Ok_0.0 == x + 4 by {
            lemma_texture_shape(f, x);
        }
        lemma_count_stride(texture_step(f), 296, (1024 - nfix) as nat, 4);
        let (t, textures) = spec_count(texture_step(f), 296, (1024 - nfix) as nat)->Ok_0;
        assert forall|i: int| 0 <= i < textures.len() implies spec_texture(f, 296 + 4 * i)
            == Ok::<(int, Option<TextureInfoView>), ParseError>((296 + 4 * i + 4, #[trigger] textures[i])) by {
            assert(texture_step(f)(296 + 4 * i) == spec_texture(f, 296 + 4 * i));
        }
        let (l, _) = spec_u32_array(main, t, 1024)->Ok_0;
        let (g, _) = spec_texture(f, l)->Ok_0;
        lemma_texture_shape(f, l);
        assert forall|x: int| (#[trigger] object_type_list_step(main)(x)) is Ok implies object_type_list_step(main)(x)->Ok_0.0 == x + 12 by {
            lemma_object_type_list_len(main, x);
        }
        lemma_count_stride(object_type_list_step(main), g + 48, 3, 12);
        let (h, lists) = spec_count(object_type_list_step(main), g + 48, 3)->Ok_0;
        assert forall|k: int| 0 <= k < 3 implies spec_object_type_list(main, g + 48 + 12 * k)
            == Ok::<(int, Seq<ObjectTypeView>), ParseError>((g + 48 + 12 * k + 12, #[trigger] lists[k])) by {
            assert(object_type_list_step(main)(g + 48 + 12 * k) == spec_object_type_list(main, g + 48 + 12 * k));
        }
        let hdr = spec_world_header(main, h)->Ok_0;
        let v = hdr.off_array_visual_materials + 4;
        assert forall|x: int| (#[trigger] material_step(f)(x)) is Ok implies material_step(f)(x)->Ok_0.0 == x + 4 by {
            lemma_material_layout(f, x);
        }
        lemma_count_stride(material_step(f), v, hdr.num_visual_materials as nat, 4);
        let mats = spec_count(material_step(f), v, hdr.num_visual_materials as nat)->Ok_0.1;
        assert forall|i: int| 0 <= i < mats.len() implies spec_visual_material(f, v + 4 * i)
            == Ok::<(int, VisualMaterialView), ParseError>((v + 4 * i + 4, #[trigger] mats[i])) by {
            assert(material_step(f)(v + 4 * i) == spec_visual_material(f, v + 4 * i));
        }
    }
}

/// The first checks of a level read: a main level shorter than 292 bytes
/// is out of bounds, one without the texture count word is short, and a
/// fixed-level texture count above 1024 is refused; an unreadable pointer
/// file is short.
pub proof fn lemma_level_outcome(main: Seq<u8>, ptr: Seq<u8>, fix: Seq<u8>)
    ensures
        main.len() < 292 ==> spec_parse_level(main, ptr, fix) == Err::<LevelView, ParseError>(ParseError::OutOfBounds),
        292 <= main.len() < 296 ==> spec_parse_level(main, ptr, fix) == Err::<LevelView, ParseError>(ParseError::Eof),
        296 <= main.len() && u32_le(main, 292) > 1024 ==> spec_parse_level(main, ptr, fix) == Err::<LevelView, ParseError>(ParseError::TooManyFixTextures),
        296 <= main.len() && u32_le(main, 292) <= 1024 && spec_pointer_table(ptr) is Err ==> spec_parse_level(main, ptr, fix) == Err::<LevelView, ParseError>(ParseError::Eof),
{
    lemma_pointer_table_outcome(ptr);
}

} // verus!
