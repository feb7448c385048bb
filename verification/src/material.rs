//! Visual materials: their texture slots and animated textures.
//!
//! Floating-point fields are kept as the bit patterns of their
//! little-endian `f32` values (`f32::from_bits` gives the number).

use vstd::prelude::*;
use crate::error::ParseError;
use crate::bytes::{u16_le, u32_le, spec_offset_target, read_u8, read_u16, read_u32, offset_target};
use crate::files::{LevelFiles, FilesView};
use crate::sequence::{at_view, prepend, spec_count, lemma_count_step, lemma_count_done, lemma_count_len, lemma_count_in_place, lemma_count_stride};
use crate::texture::{TextureRecord, TextureInfoView, spec_texture, texture, lemma_texture_shape};

verus! {

/// One texture slot of a visual material (72 bytes).
#[derive(Debug, Clone, Copy)]
pub struct VisualMaterialTexture {
    /// Position of the slot in the main level, minus the four-byte header.
    pub offset: u32,
    pub off_texture: u32,
    pub texture_op: u8,
    pub shading_mode: u8,
    pub uv_function: u8,
    pub scroll_byte: u8,
    pub properties: u32,
    /// Bits of an `f32`.
    pub scroll_x: u32,
    /// Bits of an `f32`.
    pub scroll_y: u32,
    /// Bits of an `f32`.
    pub rotate_speed: u32,
    /// Bits of an `f32`.
    pub rotate_direction: u32,
    /// Bits of an `f32`.
    pub current_scroll_x: u32,
    /// Bits of an `f32`.
    pub current_scroll_y: u32,
    pub blend_index: u32,
}

impl View for VisualMaterialTexture {
    type V = VisualMaterialTexture;

    open spec fn view(&self) -> VisualMaterialTexture {
        *self
    }
}

/// An animated texture: its offset word, its frame time (bits of an
/// `f32`) and the texture the offset word refers to.
#[derive(Debug)]
pub struct AnimatedTextureRecord<N> {
    pub off_texture: u32,
    pub time: u32,
    pub texture: TextureRecord<N>,
}

pub type AnimatedTexture = AnimatedTextureRecord<String>;

pub type AnimatedTextureView = AnimatedTextureRecord<Seq<char>>;

impl View for AnimatedTextureRecord<String> {
    type V = AnimatedTextureView;

    open spec fn view(&self) -> AnimatedTextureView {
        AnimatedTextureRecord { off_texture: self.off_texture, time: self.time, texture: self.texture@ }
    }
}

/// A visual material; `T` holds its texture slots and `A` its animated
/// textures. The colour coefficients are bits of `f32`s, in file order.
#[derive(Debug)]
pub struct VisualMaterialRecord<T, A> {
    pub flags: u32,
    pub ambient_coef: (u32, u32, u32, u32),
    pub diffuse_coef: (u32, u32, u32, u32),
    pub specular_coef: (u32, u32, u32, u32),
    pub color: (u32, u32, u32, u32),
    pub off_anim_textures_first: u32,
    pub off_anim_textures_current: u32,
    pub num_anim_textures: u16,
    pub properties: u8,
    pub num_textures_in_material: u32,
    pub textures: T,
    pub anim_textures: A,
}

pub type VisualMaterial = VisualMaterialRecord<Vec<VisualMaterialTexture>, Vec<AnimatedTexture>>;

pub type VisualMaterialView = VisualMaterialRecord<Seq<VisualMaterialTexture>, Seq<AnimatedTextureView>>;

/// Animated textures by their views.
pub open spec fn anim_textures_view(v: Seq<AnimatedTexture>) -> Seq<AnimatedTextureView> {
    v.map_values(|a: AnimatedTexture| a@)
}

impl View for VisualMaterialRecord<Vec<VisualMaterialTexture>, Vec<AnimatedTexture>> {
    type V = VisualMaterialView;

    open spec fn view(&self) -> VisualMaterialView {
        VisualMaterialRecord {
            flags: self.flags,
            ambient_coef: self.ambient_coef,
            diffuse_coef: self.diffuse_coef,
            specular_coef: self.specular_coef,
            color: self.color,
            off_anim_textures_first: self.off_anim_textures_first,
            off_anim_textures_current: self.off_anim_textures_current,
            num_anim_textures: self.num_anim_textures,
            properties: self.properties,
            num_textures_in_material: self.num_textures_in_material,
            textures: self.textures@,
            anim_textures: anim_textures_view(self.anim_textures@),
        }
    }
}

/// Bytes of a texture slot.
pub open spec fn slot_len() -> int {
    72
}

/// The texture slot stored at `p` of the main level `s`.
pub open spec fn slot_record(s: Seq<u8>, p: int) -> VisualMaterialTexture {
    VisualMaterialTexture {
        offset: (p - 4) as u32,
        off_texture: u32_le(s, p),
        texture_op: s[p + 4],
        shading_mode: s[p + 5],
        uv_function: s[p + 6],
        scroll_byte: s[p + 7],
        properties: u32_le(s, p + 8),
        scroll_x: u32_le(s, p + 20),
        scroll_y: u32_le(s, p + 24),
        rotate_speed: u32_le(s, p + 28),
        rotate_direction: u32_le(s, p + 32),
        current_scroll_x: u32_le(s, p + 44),
        current_scroll_y: u32_le(s, p + 48),
        blend_index: u32_le(s, p + 68),
    }
}

/// The texture slot at `pos` of the main level. Its texture is read (and
/// must be readable) but not kept; the slot's fields follow the offset word.
pub open spec fn spec_visual_material_texture(f: FilesView, pos: int) -> Result<(int, VisualMaterialTexture), ParseError> {
    match spec_texture(f, pos) {
        Err(e) => Err(e),
        Ok(_) => if pos + slot_len() > f.main.len() {
            Err(ParseError::Eof)
        } else {
            Ok((pos + slot_len(), slot_record(f.main, pos)))
        },
    }
}

/// Reading a texture slot, as a step of a count.
pub open spec fn slot_step(f: FilesView) -> spec_fn(int) -> Result<(int, VisualMaterialTexture), ParseError> {
    |p: int| spec_visual_material_texture(f, p)
}

/// The animated texture at `pos`: an offset word and a frame time, and the
/// texture, which must exist. The parse does not move.
pub open spec fn spec_anim_texture(f: FilesView, pos: int) -> Result<(int, AnimatedTextureView), ParseError> {
    if pos + 8 > f.main.len() {
        Err(ParseError::Eof)
    } else {
        match spec_texture(f, pos) {
            Err(e) => Err(e),
            Ok((_, None)) => Err(ParseError::MissingTexture),
            Ok((_, Some(t))) => Ok((pos, AnimatedTextureRecord {
                off_texture: u32_le(f.main, pos),
                time: u32_le(f.main, pos + 4),
                texture: t,
            })),
        }
    }
}

/// Reading an animated texture, as a step of a count.
pub open spec fn anim_step(f: FilesView) -> spec_fn(int) -> Result<(int, AnimatedTextureView), ParseError> {
    |p: int| spec_anim_texture(f, p)
}

/// The material record that starts at `m` of the main level, with its slots
/// and animated textures.
pub open spec fn material_record(s: Seq<u8>, m: int, slots: Seq<VisualMaterialTexture>, anims: Seq<AnimatedTextureView>) -> VisualMaterialView {
    VisualMaterialRecord {
        flags: u32_le(s, m),
        ambient_coef: (u32_le(s, m + 4), u32_le(s, m + 8), u32_le(s, m + 12), u32_le(s, m + 16)),
        diffuse_coef: (u32_le(s, m + 20), u32_le(s, m + 24), u32_le(s, m + 28), u32_le(s, m + 32)),
        specular_coef: (u32_le(s, m + 36), u32_le(s, m + 40), u32_le(s, m + 44), u32_le(s, m + 48)),
        color: (u32_le(s, m + 52), u32_le(s, m + 56), u32_le(s, m + 60), u32_le(s, m + 64)),
        off_anim_textures_first: u32_le(s, m + 72),
        off_anim_textures_current: u32_le(s, m + 76),
        num_anim_textures: u16_le(s, m + 80),
        properties: s[m + 90],
        num_textures_in_material: u32_le(s, m + 100),
        textures: slots,
        anim_textures: anims,
    }
}

/// The visual material that the offset word at `pos` refers to: a 104-byte
/// record where the offset leads, then always four texture slots, then the
/// animated textures where the record's first-animation offset leads. The
/// parse moves past the offset word only.
pub open spec fn spec_visual_material(f: FilesView, pos: int) -> Result<(int, VisualMaterialView), ParseError> {
    let s = f.main;
    if pos < 0 || pos + 4 > s.len() {
        Err(ParseError::Eof)
    } else {
        match spec_offset_target(s.len() as int, u32_le(s, pos)) {
            Err(e) => Err(e),
            Ok(m) => if m + 104 > s.len() {
                Err(ParseError::Eof)
            } else {
                match spec_count(slot_step(f), m + 104, 4) {
                    Err(e) => Err(e),
                    Ok((_, slots)) => match spec_offset_target(s.len() as int, u32_le(s, m + 72)) {
                        Err(e) => Err(e),
                        Ok(a) => match spec_count(anim_step(f), a, u16_le(s, m + 80) as nat) {
                            Err(e) => Err(e),
                            Ok((_, anims)) => Ok((pos + 4, material_record(s, m, slots, anims))),
                        },
                    },
                }
            },
        }
    }
}

/// Reads the texture slot at `pos` (see `spec_visual_material_texture`).
pub fn visual_material_texture(files: &LevelFiles, pos: usize) -> (r: Result<(usize, VisualMaterialTexture), ParseError>)
    requires
        4 <= pos,
    ensures
        at_view(r) == spec_visual_material_texture(files@, pos as int),
{
    let s = files.main;
    let offset = (pos - 4) as u32;
    let off_texture = read_u32(s, pos)?;
    let _ = texture(files, pos)?;
    let texture_op = read_u8(s, pos + 4)?;
    let shading_mode = read_u8(s, pos + 5)?;
    let uv_function = read_u8(s, pos + 6)?;
    let scroll_byte = read_u8(s, pos + 7)?;
    let properties = read_u32(s, pos + 8)?;
    let _ = read_u32(s, pos + 12)?;
    let _ = read_u32(s, pos + 16)?;
    let scroll_x = read_u32(s, pos + 20)?;
    let scroll_y = read_u32(s, pos + 24)?;
    let rotate_speed = read_u32(s, pos + 28)?;
    let rotate_direction = read_u32(s, pos + 32)?;
    let _ = read_u32(s, pos + 36)?;
    let _ = read_u32(s, pos + 40)?;
    let current_scroll_x = read_u32(s, pos + 44)?;
    let current_scroll_y = read_u32(s, pos + 48)?;
    let _ = read_u32(s, pos + 52)?;
    let _ = read_u32(s, pos + 56)?;
    let _ = read_u32(s, pos + 60)?;
    let _ = read_u32(s, pos + 64)?;
    let blend_index = read_u32(s, pos + 68)?;
    Ok((pos + 72, VisualMaterialTexture {
        offset,
        off_texture,
        texture_op,
        shading_mode,
        uv_function,
        scroll_byte,
        properties,
        scroll_x,
        scroll_y,
        rotate_speed,
        rotate_direction,
        current_scroll_x,
        current_scroll_y,
        blend_index,
    }))
}

/// Reads the animated texture at `pos` (see `spec_anim_texture`).
pub fn anim_texture(files: &LevelFiles, pos: usize) -> (r: Result<(usize, AnimatedTexture), ParseError>)
    requires
        4 <= pos,
    ensures
        at_view(r) == spec_anim_texture(files@, pos as int),
{
    let off_anim_texture = read_u32(files.main, pos)?;
    let time = read_u32(files.main, pos + 4)?;
    let (_, tex) = texture(files, pos)?;
    match tex {
        Some(t) => Ok((pos, AnimatedTextureRecord { off_texture: off_anim_texture, time, texture: t })),
        None => Err(ParseError::MissingTexture),
    }
}

/// Reads `n` consecutive texture slots from `p`: `count` of
/// `visual_material_texture`.
pub fn visual_material_textures(files: &LevelFiles, p: usize, n: usize) -> (r: Result<(usize, Vec<VisualMaterialTexture>), ParseError>)
    requires
        4 <= p,
    ensures
        match r {
            Ok((q, v)) => spec_count(slot_step(files@), p as int, n as nat) == Ok::<(int, Seq<VisualMaterialTexture>), ParseError>((q as int, v@)),
            Err(e) => spec_count(slot_step(files@), p as int, n as nat) == Err::<(int, Seq<VisualMaterialTexture>), ParseError>(e),
        },
{
    let mut slots: Vec<VisualMaterialTexture> = Vec::new();
    let mut q = p;
    let mut i: usize = 0;
    while i < n
        invariant
            i <= n,
            4 <= q,
            spec_count(slot_step(files@), p as int, n as nat) == prepend(slots@, spec_count(slot_step(files@), q as int, (n - i) as nat)),
        decreases n - i,
    {
        let ghost before = slots@;
        let ghost m = (n - i) as nat;
        let ghost old_q = q;
        let (next, v) = visual_material_texture(files, q)?;
        slots.push(v);
        q = next;
        i = i + 1;
        proof {
            lemma_count_step(slot_step(files@), before, old_q as int, m, next as int, v);
        }
    }
    proof {
        lemma_count_done(slot_step(files@), slots@, q as int);
    }
    Ok((q, slots))
}

/// Reads `n` animated textures from `p`: `count` of `anim_texture`.
pub fn anim_textures(files: &LevelFiles, p: usize, n: u16) -> (r: Result<(usize, Vec<AnimatedTexture>), ParseError>)
    requires
        4 <= p,
    ensures
        match r {
            Ok((q, v)) => spec_count(anim_step(files@), p as int, n as nat) == Ok::<(int, Seq<AnimatedTextureView>), ParseError>((q as int, anim_textures_view(v@))),
            Err(e) => spec_count(anim_step(files@), p as int, n as nat) == Err::<(int, Seq<AnimatedTextureView>), ParseError>(e),
        },
{
    let mut anims: Vec<AnimatedTexture> = Vec::new();
    let mut q = p;
    let mut i: u16 = 0;
    while i < n
        invariant
            i <= n,
            4 <= q,
            spec_count(anim_step(files@), p as int, n as nat) == prepend(anim_textures_view(anims@), spec_count(anim_step(files@), q as int, (n - i) as nat)),
        decreases n - i,
    {
        let ghost before = anims@;
        let ghost m = (n - i) as nat;
        let ghost old_q = q;
        let (next, a) = anim_texture(files, q)?;
        anims.push(a);
        q = next;
        i = i + 1;
        proof {
            assert(anim_textures_view(anims@) == anim_textures_view(before).push(a@));
            lemma_count_step(anim_step(files@), anim_textures_view(before), old_q as int, m, next as int, a@);
        }
    }
    proof {
        lemma_count_done(anim_step(files@), anim_textures_view(anims@), q as int);
    }
    Ok((q, anims))
}

/// Reads the visual material that the offset word at `pos` refers to (see
/// `spec_visual_material`).
pub fn visual_material(files: &LevelFiles, pos: usize) -> (r: Result<(usize, VisualMaterial), ParseError>)
    ensures
        at_view(r) == spec_visual_material(files@, pos as int),
{
    let s = files.main;
    let off_material = read_u32(s, pos)?;
    let m = offset_target(s, off_material)?;
    let flags = read_u32(s, m)?;
    let a0 = read_u32(s, m + 4)?;
    let a1 = read_u32(s, m + 8)?;
    let a2 = read_u32(s, m + 12)?;
    let a3 = read_u32(s, m + 16)?;
    let d0 = read_u32(s, m + 20)?;
    let d1 = read_u32(s, m + 24)?;
    let d2 = read_u32(s, m + 28)?;
    let d3 = read_u32(s, m + 32)?;
    let s0 = read_u32(s, m + 36)?;
    let s1 = read_u32(s, m + 40)?;
    let s2 = read_u32(s, m + 44)?;
    let s3 = read_u32(s, m + 48)?;
    let c0 = read_u32(s, m + 52)?;
    let c1 = read_u32(s, m + 56)?;
    let c2 = read_u32(s, m + 60)?;
    let c3 = read_u32(s, m + 64)?;
    let _refres_num = read_u32(s, m + 68)?;
    let off_anim_textures_first = read_u32(s, m + 72)?;
    let off_anim_textures_current = read_u32(s, m + 76)?;
    let num_anim_textures = read_u16(s, m + 80)?;
    let _unk0 = read_u16(s, m + 82)?;
    let _unk1 = read_u32(s, m + 84)?;
    let _unk2 = read_u8(s, m + 88)?;
    let _unk3 = read_u8(s, m + 89)?;
    let properties = read_u8(s, m + 90)?;
    let _unk4 = read_u8(s, m + 91)?;
    let _unk5 = read_u32(s, m + 92)?;
    let _unk6 = read_u32(s, m + 96)?;
    let num_textures_in_material = read_u32(s, m + 100)?;
    let (_, textures) = visual_material_textures(files, m + 104, 4)?;
    let a = offset_target(s, off_anim_textures_first)?;
    let (_, anim) = anim_textures(files, a, num_anim_textures)?;
    Ok((pos + 4, VisualMaterialRecord {
        flags,
        ambient_coef: (a0, a1, a2, a3),
        diffuse_coef: (d0, d1, d2, d3),
        specular_coef: (s0, s1, s2, s3),
        color: (c0, c1, c2, c3),
        off_anim_textures_first,
        off_anim_textures_current,
        num_anim_textures,
        properties,
        num_textures_in_material,
        textures,
        anim_textures: anim,
    }))
}

/// Reading a visual material through its offset word, as a step of a count.
pub open spec fn material_step(f: FilesView) -> spec_fn(int) -> Result<(int, VisualMaterialView), ParseError> {
    |p: int| spec_visual_material(f, p)
}

/// A material that reads has four texture slots, 72 bytes apart after its
/// 104-byte record, and its animated textures are all the same texture,
/// read again at the same place.
pub proof fn lemma_material_shape(f: FilesView, pos: int)
    ensures
        spec_visual_material(f, pos) matches Ok((q, vm)) ==> {
            &&& q == pos + 4
            &&& vm.textures.len() == 4
            &&& forall|i: int| 0 <= i < 4 ==> #[trigger] vm.textures[i] == slot_record(f.main, u32_le(f.main, pos) + 4 + 104 + 72 * i)
            &&& vm.anim_textures.len() == vm.num_anim_textures
            &&& forall|i: int| 0 <= i < vm.anim_textures.len() ==> #[trigger] vm.anim_textures[i] == vm.anim_textures[0]
        },
{
    let s = f.main;
    if let Ok((q, vm)) = spec_visual_material(f, pos) {
        let m = u32_le(s, pos) + 4;
        lemma_slots_layout(f, m + 104, 4);
        let a = u32_le(s, m + 72) + 4;
        let n = u16_le(s, m + 80) as nat;
        if n > 0 {
            if let Ok((p2, v)) = spec_anim_texture(f, a) {
                lemma_count_in_place(anim_step(f), a, n, v);
            }
        }
        lemma_count_len(anim_step(f), a, n);
    }
}

/// Consecutive texture slots lie 72 bytes apart.
pub proof fn lemma_slots_layout(f: FilesView, p: int, n: nat)
    ensures
        spec_count(slot_step(f), p, n) matches Ok((q, v)) ==> {
            &&& q == p + 72 * n
            &&& v.len() == n
            &&& forall|i: int| 0 <= i < n ==> #[trigger] v[i] == slot_record(f.main, p + 72 * i)
        },
    decreases n,
{
    if n > 0 {
        lemma_slots_layout(f, p + 72, (n - 1) as nat);
        if let Ok((q, v)) = spec_count(slot_step(f), p, n) {
            let rest = spec_count(slot_step(f), p + 72, (n - 1) as nat)->Ok_0.1;
            assert forall|i: int| 0 <= i < n implies #[trigger] v[i] == slot_record(f.main, p + 72 * i) by {
                if i > 0 {
                    assert(v[i] == rest[i - 1]);
                }
            }
        }
    }
}

/// A texture slot read at `p` takes 72 bytes and needs the texture that its
/// offset word refers to; `offset` is `p - 4` and each other field is the
/// value at its own offset of the slot.
pub proof fn lemma_slot_layout(f: FilesView, p: int)
    ensures
        spec_visual_material_texture(f, p) matches Ok((q, v)) ==> {
            &&& q == p + 72
            &&& p + 72 <= f.main.len()
            &&& spec_texture(f, p) is Ok
            &&& v.offset == (p - 4) as u32
            &&& v.off_texture == u32_le(f.main, p + 0)
            &&& v.texture_op == f.main[p + 4]
            &&& v.shading_mode == f.main[p + 5]
            &&& v.uv_function == f.main[p + 6]
            &&& v.scroll_byte == f.main[p + 7]
            &&& v.properties == u32_le(f.main, p + 8)
            &&& v.scroll_x == u32_le(f.main, p + 20)
            &&& v.scroll_y == u32_le(f.main, p + 24)
            &&& v.rotate_speed == u32_le(f.main, p + 28)
            &&& v.rotate_direction == u32_le(f.main, p + 32)
            &&& v.current_scroll_x == u32_le(f.main, p + 44)
            &&& v.current_scroll_y == u32_le(f.main, p + 48)
            &&& v.blend_index == u32_le(f.main, p + 68)
        },
{
}

/// An animated texture read at `p` does not move; it holds the offset word
/// at `p`, the frame-time word at `p + 4`, and the texture that the offset
/// word refers to, which must exist.
pub proof fn lemma_anim_layout(f: FilesView, p: int)
    ensures
        spec_anim_texture(f, p) matches Ok((q, a)) ==> {
            &&& q == p
            &&& p + 8 <= f.main.len()
            &&& a.off_texture == u32_le(f.main, p)
            &&& a.time == u32_le(f.main, p + 4)
            &&& spec_texture(f, p) == Ok::<(int, Option<TextureInfoView>), ParseError>((p + 4, Some(a.texture)))
        },
{
    if let Ok((q, a)) = spec_anim_texture(f, p) {
        lemma_texture_shape(f, p);
    }
}

/// A visual material read through the offset word at `pos` has its 104-byte
/// record `m` bytes into the main level, where `m` is that offset plus four:
/// the flags word, then the ambient, diffuse, specular and colour
/// coefficients as sixteen words in that order, the animation offsets at
/// `m + 72` and `m + 76`, the animation count at `m + 80`, the properties
/// byte at `m + 90` and the texture count at `m + 100`; its four slots are
/// the slots read at `m + 104 + 72 * i`, and each animated texture is the one
/// read where the first-animation offset leads.
#[verifier::rlimit(40)]
pub proof fn lemma_material_layout(f: FilesView, pos: int)
    ensures
        spec_visual_material(f, pos) matches Ok((q, vm)) ==> ({
            let s = f.main;
            let m = u32_le(s, pos) + 4;
            let a = u32_le(s, m + 72) + 4;
            &&& q == pos + 4
            &&& m + 104 <= s.len()
            &&& vm.flags == u32_le(s, m + 0)
            &&& vm.ambient_coef == (u32_le(s, m + 4), u32_le(s, m + 8), u32_le(s, m + 12), u32_le(s, m + 16))
            &&& vm.diffuse_coef == (u32_le(s, m + 20), u32_le(s, m + 24), u32_le(s, m + 28), u32_le(s, m + 32))
            &&& vm.specular_coef == (u32_le(s, m + 36), u32_le(s, m + 40), u32_le(s, m + 44), u32_le(s, m + 48))
            &&& vm.color == (u32_le(s, m + 52), u32_le(s, m + 56), u32_le(s, m + 60), u32_le(s, m + 64))
            &&& vm.off_anim_textures_first == u32_le(s, m + 72)
            &&& vm.off_anim_textures_current == u32_le(s, m + 76)
            &&& vm.num_anim_textures == u16_le(s, m + 80)
            &&& vm.properties == s[m + 90]
            &&& vm.num_textures_in_material == u32_le(s, m + 100)
            &&& vm.textures.len() == 4
            &&& forall|i: int| 0 <= i < 4 ==> spec_visual_material_texture(f, m + 104 + 72 * i)
                == Ok::<(int, VisualMaterialTexture), ParseError>((m + 104 + 72 * i + 72, #[trigger] vm.textures[i]))
            &&& vm.anim_textures.len() == vm.num_anim_textures
            &&& forall|i: int| 0 <= i < vm.anim_textures.len() ==> spec_anim_texture(f, a)
                == Ok::<(int, AnimatedTextureView), ParseError>((a, #[trigger] vm.anim_textures[i]))
        }),
{
    let s = f.main;
    if let Ok((q, vm)) = spec_visual_material(f, pos) {
        let m = u32_le(s, pos) + 4;
        let a = u32_le(s, m + 72) + 4;
        assert forall|x: int| (#[trigger] slot_step(f)(x)) is Ok implies slot_step(f)(x)->Ok_0.0 == x + 72 by {
            lemma_slot_layout(f, x);
        }
        lemma_count_stride(slot_step(f), m + 104, 4, 72);
        assert forall|x: int| (#[trigger] anim_step(f)(x)) is Ok implies anim_step(f)(x)->Ok_0.0 == x + 0 by {
            lemma_anim_layout(f, x);
        }
        lemma_count_stride(anim_step(f), a, u16_le(s, m + 80) as nat, 0);
        assert forall|i: int| 0 <= i < 4 implies spec_visual_material_texture(f, m + 104 + 72 * i)
            == Ok::<(int, VisualMaterialTexture), ParseError>((m + 104 + 72 * i + 72, #[trigger] vm.textures[i])) by {
            assert(slot_step(f)(m + 104 + 72 * i) == spec_visual_material_texture(f, m + 104 + 72 * i));
        }
        assert forall|i: int| 0 <= i < vm.anim_textures.len() implies spec_anim_texture(f, a)
            == Ok::<(int, AnimatedTextureView), ParseError>((a, #[trigger] vm.anim_textures[i])) by {
            assert(a + 0 * i == a);
            assert(anim_step(f)(a + 0 * i) == spec_anim_texture(f, a));
        }
    }
}

/// When a texture slot read succeeds: its texture must read, and then the
/// 72-byte slot must fit; a texture error is the slot's error.
pub proof fn lemma_slot_outcome(f: FilesView, p: int)
    ensures
        spec_texture(f, p) matches Err(e) ==> spec_visual_material_texture(f, p) == Err::<(int, VisualMaterialTexture), ParseError>(e),
        spec_texture(f, p) is Ok && p + 72 > f.main.len() ==> spec_visual_material_texture(f, p) == Err::<(int, VisualMaterialTexture), ParseError>(ParseError::Eof),
        spec_texture(f, p) is Ok && p + 72 <= f.main.len() ==> spec_visual_material_texture(f, p) is Ok,
{
}

/// When an animated texture read succeeds: the offset and time words must
/// fit, and the texture must read and exist.
pub proof fn lemma_anim_outcome(f: FilesView, p: int)
    ensures
        p + 8 > f.main.len() ==> spec_anim_texture(f, p) == Err::<(int, AnimatedTextureView), ParseError>(ParseError::Eof),
        p + 8 <= f.main.len() && spec_texture(f, p) is Err ==> spec_anim_texture(f, p) == Err::<(int, AnimatedTextureView), ParseError>(spec_texture(f, p)->Err_0),
        p + 8 <= f.main.len() && spec_texture(f, p) is Ok && spec_texture(f, p)->Ok_0.1 is None ==> spec_anim_texture(f, p) == Err::<(int, AnimatedTextureView), ParseError>(ParseError::MissingTexture),
        p + 8 <= f.main.len() && spec_texture(f, p) is Ok && spec_texture(f, p)->Ok_0.1 is Some ==> spec_anim_texture(f, p) is Ok,
{
}

/// The first checks of a material read: its offset word must fit, the
/// offset plus four must lie inside the main level, and the 104-byte record
/// must fit there.
pub proof fn lemma_material_outcome(f: FilesView, pos: int)
    requires
        0 <= pos,
    ensures
        pos + 4 > f.main.len() ==> spec_visual_material(f, pos) == Err::<(int, VisualMaterialView), ParseError>(ParseError::Eof),
        pos + 4 <= f.main.len() && u32_le(f.main, pos) + 4 > f.main.len() ==> spec_visual_material(f, pos) == Err::<(int, VisualMaterialView), ParseError>(ParseError::OutOfBounds),
        pos + 4 <= f.main.len() && u32_le(f.main, pos) + 4 <= f.main.len() && u32_le(f.main, pos) + 108 > f.main.len() ==> spec_visual_material(f, pos) == Err::<(int, VisualMaterialView), ParseError>(ParseError::Eof),
{
}

} // verus!
