//! Texture records, reached through an offset word.

use vstd::prelude::*;
use crate::error::ParseError;
use crate::primitives::lossy_utf8;
use crate::bytes::{cstr_len, lemma_name_at, spec_offset_target, u16_le, u32_le, name_at, read_u8, read_u16, read_u32, read_name, offset_target};
use crate::files::{LevelFiles, FilesView, file_id_at, file_bytes, file_id_for};

verus! {

/// A texture record; `N` is the name's representation (`String` in
/// executable code, `Seq<char>` in specifications).
#[derive(Debug)]
pub struct TextureRecord<N> {
    pub field0: u32,
    pub field4: u16,
    pub field6: u16,
    pub off_temp_buffer: u32,
    pub field_c: u32,
    pub field10: u32,
    pub flags: u32,
    pub height_: u16,
    pub width_: u16,
    pub height: u16,
    pub width: u16,
    pub current_scroll_x: u32,
    pub current_scroll_y: u32,
    pub texture_scrolling_enabled: u32,
    pub alpha_mask: u32,
    pub field30: u32,
    pub num_mipmaps: u32,
    pub field38: u32,
    pub field3c: u32,
    pub field40: u32,
    pub field44: u32,
    pub field48: u8,
    pub flags_byte: u8,
    pub name: N,
}

pub type TextureInfo = TextureRecord<String>;

pub type TextureInfoView = TextureRecord<Seq<char>>;

impl View for TextureRecord<String> {
    type V = TextureInfoView;

    open spec fn view(&self) -> TextureInfoView {
        TextureRecord {
            field0: self.field0,
            field4: self.field4,
            field6: self.field6,
            off_temp_buffer: self.off_temp_buffer,
            field_c: self.field_c,
            field10: self.field10,
            flags: self.flags,
            height_: self.height_,
            width_: self.width_,
            height: self.height,
            width: self.width,
            current_scroll_x: self.current_scroll_x,
            current_scroll_y: self.current_scroll_y,
            texture_scrolling_enabled: self.texture_scrolling_enabled,
            alpha_mask: self.alpha_mask,
            field30: self.field30,
            num_mipmaps: self.num_mipmaps,
            field38: self.field38,
            field3c: self.field3c,
            field40: self.field40,
            field44: self.field44,
            field48: self.field48,
            flags_byte: self.flags_byte,
            name: self.name@,
        }
    }
}

/// An optional texture by its view.
pub open spec fn opt_texture_view(t: Option<TextureInfo>) -> Option<TextureInfoView> {
    match t {
        Some(x) => Some(x@),
        None => None,
    }
}

/// A texture parse result by its view.
pub open spec fn texture_result_view(r: Result<(usize, Option<TextureInfo>), ParseError>) -> Result<(int, Option<TextureInfoView>), ParseError> {
    match r {
        Ok((p, t)) => Ok((p as int, opt_texture_view(t))),
        Err(e) => Err(e),
    }
}

/// Bytes of the fixed part of a texture record, before its name.
pub open spec fn texture_fixed_len() -> int {
    74
}

/// The texture record stored at `b` of `d`.
pub open spec fn texture_record(d: Seq<u8>, b: int) -> TextureInfoView {
    TextureRecord {
        field0: u32_le(d, b),
        field4: u16_le(d, b + 4),
        field6: u16_le(d, b + 6),
        off_temp_buffer: u32_le(d, b + 8),
        field_c: u32_le(d, b + 12),
        field10: u32_le(d, b + 16),
        flags: u32_le(d, b + 20),
        height_: u16_le(d, b + 24),
        width_: u16_le(d, b + 26),
        height: u16_le(d, b + 28),
        width: u16_le(d, b + 30),
        current_scroll_x: u32_le(d, b + 32),
        current_scroll_y: u32_le(d, b + 36),
        texture_scrolling_enabled: u32_le(d, b + 40),
        alpha_mask: u32_le(d, b + 44),
        field30: u32_le(d, b + 48),
        num_mipmaps: u32_le(d, b + 52),
        field38: u32_le(d, b + 56),
        field3c: u32_le(d, b + 60),
        field40: u32_le(d, b + 64),
        field44: u32_le(d, b + 68),
        field48: d[b + 72],
        flags_byte: d[b + 73],
        name: name_at(d, b + 74),
    }
}

/// The texture that the offset word at `pos` of the main level refers to.
/// A zero offset means no texture; otherwise the record lies four bytes past
/// the offset, in the file that the pointer table names for `pos - 4`.
/// Either way the parse moves past the offset word only.
pub open spec fn spec_texture(f: FilesView, pos: int) -> Result<(int, Option<TextureInfoView>), ParseError> {
    if pos + 4 > f.main.len() {
        Err(ParseError::Eof)
    } else if u32_le(f.main, pos) == 0 {
        Ok((pos + 4, None))
    } else if file_id_at(f, pos) > 1 {
        Err(ParseError::FileIdOutOfRange)
    } else {
        let d = file_bytes(f, file_id_at(f, pos));
        let b = u32_le(f.main, pos) + 4;
        if spec_offset_target(d.len() as int, u32_le(f.main, pos)) is Err {
            Err(ParseError::OutOfBounds)
        } else if b + texture_fixed_len() > d.len() {
            Err(ParseError::Eof)
        } else {
            Ok((pos + 4, Some(texture_record(d, b))))
        }
    }
}

/// Reads the texture that the offset word at `pos` of the main level refers
/// to (see `spec_texture`).
pub fn texture(files: &LevelFiles, pos: usize) -> (r: Result<(usize, Option<TextureInfo>), ParseError>)
    requires
        4 <= pos,
    ensures
        texture_result_view(r) == spec_texture(files@, pos as int),
{
    let off_texture = read_u32(files.main, pos)?;
    let input = pos + 4;
    if off_texture == 0 {
        return Ok((input, None));
    }
    let file_id = file_id_for(files, pos);
    let d: &[u8] = if file_id == 0 {
        files.fix
    } else if file_id == 1 {
        files.main
    } else {
        return Err(ParseError::FileIdOutOfRange);
    };
    let b = offset_target(d, off_texture)?;
    let field0 = read_u32(d, b)?;
    let field4 = read_u16(d, b + 4)?;
    let field6 = read_u16(d, b + 6)?;
    let off_temp_buffer = read_u32(d, b + 8)?;
    let field_c = read_u32(d, b + 12)?;
    let field10 = read_u32(d, b + 16)?;
    let flags = read_u32(d, b + 20)?;
    let height_ = read_u16(d, b + 24)?;
    let width_ = read_u16(d, b + 26)?;
    let height = read_u16(d, b + 28)?;
    let width = read_u16(d, b + 30)?;
    let current_scroll_x = read_u32(d, b + 32)?;
    let current_scroll_y = read_u32(d, b + 36)?;
    let texture_scrolling_enabled = read_u32(d, b + 40)?;
    let alpha_mask = read_u32(d, b + 44)?;
    let field30 = read_u32(d, b + 48)?;
    let num_mipmaps = read_u32(d, b + 52)?;
    let field38 = read_u32(d, b + 56)?;
    let field3c = read_u32(d, b + 60)?;
    let field40 = read_u32(d, b + 64)?;
    let field44 = read_u32(d, b + 68)?;
    let field48 = read_u8(d, b + 72)?;
    let flags_byte = read_u8(d, b + 73)?;
    let name = read_name(d, b + 74);
    Ok((input, Some(TextureRecord {
        field0,
        field4,
        field6,
        off_temp_buffer,
        field_c,
        field10,
        flags,
        height_,
        width_,
        height,
        width,
        current_scroll_x,
        current_scroll_y,
        texture_scrolling_enabled,
        alpha_mask,
        field30,
        num_mipmaps,
        field38,
        field3c,
        field40,
        field44,
        field48,
        flags_byte,
        name,
    })))
}

/// Reading a texture through its offset word, as a step of a count.
pub open spec fn texture_step(f: FilesView) -> spec_fn(int) -> Result<(int, Option<TextureInfoView>), ParseError> {
    |p: int| spec_texture(f, p)
}

/// A texture parse moves past the offset word alone, and finds no texture
/// exactly when the offset word is zero.
pub proof fn lemma_texture_shape(f: FilesView, pos: int)
    ensures
        spec_texture(f, pos) matches Ok((q, t)) ==> q == pos + 4 && (t is None <==> u32_le(f.main, pos) == 0),
        u32_le(f.main, pos) == 0 && pos + 4 <= f.main.len() ==> spec_texture(f, pos) == Ok::<(int, Option<TextureInfoView>), ParseError>((pos + 4, None)),
{
}

/// A texture read through a nonzero offset word at `pos` lies four bytes
/// past that offset, in the fixed level when the pointer table maps `pos - 4`
/// to file 0 and in the main level otherwise; each field is the
/// little-endian value at its own offset of the 74-byte record, and the name
/// is the zero-terminated text that follows it.
pub proof fn lemma_texture_layout(f: FilesView, pos: int)
    ensures
        spec_texture(f, pos) matches Ok((q, Some(t))) ==> ({
            let key = (pos - 4) as usize;
            let d = if f.pointers.contains_key(key) && f.pointers[key] == 0 { f.fix } else { f.main };
            let b = u32_le(f.main, pos) + 4;
            &&& q == pos + 4
            &&& u32_le(f.main, pos) != 0
            &&& !f.pointers.contains_key(key) || f.pointers[key] <= 1
            &&& b + 74 <= d.len()
            &&& t.field0 == u32_le(d, b + 0)
            &&& t.field4 == u16_le(d, b + 4)
            &&& t.field6 == u16_le(d, b + 6)
            &&& t.off_temp_buffer == u32_le(d, b + 8)
            &&& t.field_c == u32_le(d, b + 12)
            &&& t.field10 == u32_le(d, b + 16)
            &&& t.flags == u32_le(d, b + 20)
            &&& t.height_ == u16_le(d, b + 24)
            &&& t.width_ == u16_le(d, b + 26)
            &&& t.height == u16_le(d, b + 28)
            &&& t.width == u16_le(d, b + 30)
            &&& t.current_scroll_x == u32_le(d, b + 32)
            &&& t.current_scroll_y == u32_le(d, b + 36)
            &&& t.texture_scrolling_enabled == u32_le(d, b + 40)
            &&& t.alpha_mask == u32_le(d, b + 44)
            &&& t.field30 == u32_le(d, b + 48)
            &&& t.num_mipmaps == u32_le(d, b + 52)
            &&& t.field38 == u32_le(d, b + 56)
            &&& t.field3c == u32_le(d, b + 60)
            &&& t.field40 == u32_le(d, b + 64)
            &&& t.field44 == u32_le(d, b + 68)
            &&& t.field48 == d[b + 72]
            &&& t.flags_byte == d[b + 73]
            &&& t.name == lossy_utf8(d.subrange(b + 74, b + 74 + cstr_len(d.skip(b + 74)) as int))
        }),
{
    if let Ok((q, Some(t))) = spec_texture(f, pos) {
        let d = file_bytes(f, file_id_at(f, pos));
        lemma_name_at(d, u32_le(f.main, pos) + 4 + 74);
    }
}

/// When a texture read succeeds and when it fails: it needs the offset word
/// at `pos`; a zero word gives no texture; otherwise the pointer table must
/// name file 0 or 1 for `pos - 4` (the main level when it names none), the
/// offset plus four must lie inside that file, and the 74-byte record must
/// fit there.
pub proof fn lemma_texture_outcome(f: FilesView, pos: int)
    requires
        4 <= pos,
    ensures
        ({
            let key = (pos - 4) as usize;
            let id = if f.pointers.contains_key(key) { f.pointers[key] } else { 1usize };
            let d = if id == 0 { f.fix } else { f.main };
            let off = u32_le(f.main, pos);
            let r = spec_texture(f, pos);
            &&& pos + 4 > f.main.len() ==> r == Err::<(int, Option<TextureInfoView>), ParseError>(ParseError::Eof)
            &&& pos + 4 <= f.main.len() && off == 0 ==> r == Ok::<(int, Option<TextureInfoView>), ParseError>((pos + 4, None))
            &&& pos + 4 <= f.main.len() && off != 0 && id > 1 ==> r == Err::<(int, Option<TextureInfoView>), ParseError>(ParseError::FileIdOutOfRange)
            &&& pos + 4 <= f.main.len() && off != 0 && id <= 1 && off + 4 > d.len() ==> r == Err::<(int, Option<TextureInfoView>), ParseError>(ParseError::OutOfBounds)
            &&& pos + 4 <= f.main.len() && off != 0 && id <= 1 && off + 4 <= d.len() && off + 78 > d.len() ==> r == Err::<(int, Option<TextureInfoView>), ParseError>(ParseError::Eof)
            &&& pos + 4 <= f.main.len() && off != 0 && id <= 1 && off + 78 <= d.len() ==> (r is Ok && r->Ok_0.0 == pos + 4 && r->Ok_0.1 is Some)
        }),
{
}

} // verus!
