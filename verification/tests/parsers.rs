use std::collections::HashMap;

use lvl_reader::bytes::{read_name, read_u16, read_u32, read_u8, offset_target};
use lvl_reader::error::ParseError;
use lvl_reader::files::{file_id_for, LevelFiles};
use lvl_reader::header::{globals, list_header, world_header};
use lvl_reader::level::{parse_level, u32_array};
use lvl_reader::material::{anim_texture, visual_material, visual_material_texture};
use lvl_reader::object_type::{object_type, object_type_list};
use lvl_reader::pointers::{pointer_map, pointer_table};
use lvl_reader::texture::texture;

fn put_u32(buf: &mut Vec<u8>, pos: usize, v: u32) {
    buf[pos..pos + 4].copy_from_slice(&v.to_le_bytes());
}

fn put_u16(buf: &mut Vec<u8>, pos: usize, v: u16) {
    buf[pos..pos + 2].copy_from_slice(&v.to_le_bytes());
}

fn files<'a>(fix: &'a [u8], main: &'a [u8], pointers: HashMap<usize, usize>) -> LevelFiles<'a> {
    LevelFiles { fix, main, pointers }
}

/// A texture record at `at` of `buf` (the record itself, past the 4-byte header).
fn write_texture(buf: &mut Vec<u8>, at: usize, name: &[u8]) {
    put_u32(buf, at, 0x11111111);
    put_u16(buf, at + 4, 0x2222);
    put_u16(buf, at + 6, 0x3333);
    put_u32(buf, at + 20, 0xF1A6);
    put_u16(buf, at + 28, 64);
    put_u16(buf, at + 30, 128);
    put_u32(buf, at + 52, 7);
    put_u32(buf, at + 68, 0x44);
    buf[at + 72] = 0xAB;
    buf[at + 73] = 0xCD;
    buf[at + 74..at + 74 + name.len()].copy_from_slice(name);
}

#[test]
fn reads_little_endian_fields() {
    let b = [0x01u8, 0x02, 0x03, 0x04, 0x05];
    assert_eq!(read_u32(&b, 0), Ok(0x04030201));
    assert_eq!(read_u32(&b, 1), Ok(0x05040302));
    assert_eq!(read_u32(&b, 2), Err(ParseError::Eof));
    assert_eq!(read_u16(&b, 3), Ok(0x0504));
    assert_eq!(read_u16(&b, 4), Err(ParseError::Eof));
    assert_eq!(read_u8(&b, 4), Ok(5));
    assert_eq!(read_u8(&b, 5), Err(ParseError::Eof));
    assert_eq!(read_u8(&b, 9), Err(ParseError::Eof));
}

#[test]
fn offsets_skip_a_header() {
    let b = [0u8; 10];
    assert_eq!(offset_target(&b, 0), Ok(4));
    assert_eq!(offset_target(&b, 6), Ok(10));
    assert_eq!(offset_target(&b, 7), Err(ParseError::OutOfBounds));
    assert_eq!(offset_target(&b, u32::MAX), Err(ParseError::OutOfBounds));
}

#[test]
fn names_stop_at_zero_and_decode_lossily() {
    let b = b"ab\0cd";
    assert_eq!(read_name(b, 0), "ab");
    assert_eq!(read_name(b, 2), "");
    assert_eq!(read_name(b, 3), "cd");
    assert_eq!(read_name(b, 5), "");
    let bad = [b'x', 0xFF, b'y', 0];
    assert_eq!(read_name(&bad, 0), "x\u{FFFD}y");
}

#[test]
fn zero_offset_word_is_no_texture() {
    let main = vec![0u8; 16];
    let f = files(&[], &main, HashMap::new());
    let (next, t) = texture(&f, 8).unwrap();
    assert_eq!(next, 12);
    assert!(t.is_none());
    assert_eq!(texture(&f, 13).err(), Some(ParseError::Eof));
}

#[test]
fn texture_in_the_main_level() {
    let mut main = vec![0u8; 200];
    put_u32(&mut main, 8, 96); // record at 100
    write_texture(&mut main, 100, b"rock.tga\0junk");
    let f = files(&[], &main, HashMap::new());
    let (next, t) = texture(&f, 8).unwrap();
    assert_eq!(next, 12);
    let t = t.unwrap();
    assert_eq!(t.field0, 0x11111111);
    assert_eq!(t.field4, 0x2222);
    assert_eq!(t.field6, 0x3333);
    assert_eq!(t.flags, 0xF1A6);
    assert_eq!(t.height, 64);
    assert_eq!(t.width, 128);
    assert_eq!(t.num_mipmaps, 7);
    assert_eq!(t.field44, 0x44);
    assert_eq!(t.field48, 0xAB);
    assert_eq!(t.flags_byte, 0xCD);
    assert_eq!(t.name, "rock.tga");
}

#[test]
fn texture_in_the_fixed_level_through_the_pointer_table() {
    let mut fix = vec![0u8; 120];
    write_texture(&mut fix, 20, b"fix\0");
    let mut main = vec![0u8; 40];
    put_u32(&mut main, 8, 16);
    let mut ptrs = HashMap::new();
    ptrs.insert(4usize, 0usize);
    let f = files(&fix, &main, ptrs);
    assert_eq!(file_id_for(&f, 8), 0);
    assert_eq!(file_id_for(&f, 12), 1);
    let (_, t) = texture(&f, 8).unwrap();
    assert_eq!(t.unwrap().name, "fix");
}

#[test]
fn texture_errors() {
    let mut main = vec![0u8; 100];
    put_u32(&mut main, 8, 16);
    let mut ptrs = HashMap::new();
    ptrs.insert(4usize, 2usize);
    assert_eq!(texture(&files(&[], &main, ptrs), 8).err(), Some(ParseError::FileIdOutOfRange));
    put_u32(&mut main, 8, 97);
    assert_eq!(texture(&files(&[], &main, HashMap::new()), 8).err(), Some(ParseError::OutOfBounds));
    put_u32(&mut main, 8, 30); // record at 34, needs 74 bytes: 108 > 100
    assert_eq!(texture(&files(&[], &main, HashMap::new()), 8).err(), Some(ParseError::Eof));
    put_u32(&mut main, 8, 22); // record at 26 .. 100, empty name at the end
    let (_, t) = texture(&files(&[], &main, HashMap::new()), 8).unwrap();
    assert_eq!(t.unwrap().name, "");
}

#[test]
fn object_type_follows_its_links() {
    let mut b = vec![0u8; 80];
    put_u32(&mut b, 0, 36); // next -> 40
    put_u32(&mut b, 12, 56); // name -> 60
    b[16] = 3;
    b[17] = 9;
    put_u16(&mut b, 18, 0xBEEF);
    b[60..64].copy_from_slice(b"Ray\0");
    let (next, o) = object_type(&b, 0).unwrap();
    assert_eq!(next, 40);
    assert_eq!(o.name, "Ray");
    assert_eq!((o.unk1, o.id, o.unk2), (3, 9, 0xBEEF));
    put_u32(&mut b, 0, 77);
    assert_eq!(object_type(&b, 0).err(), Some(ParseError::OutOfBounds));
    assert_eq!(object_type(&b, 61).err(), Some(ParseError::Eof));
}

#[test]
fn object_type_list_reads_the_chain() {
    let mut b = vec![0u8; 120];
    // header at 0: first -> 20, count 2
    put_u32(&mut b, 0, 16);
    put_u32(&mut b, 8, 2);
    // record at 20: next -> 50, name -> 100
    put_u32(&mut b, 20, 46);
    put_u32(&mut b, 32, 96);
    b[37] = 1;
    // record at 50: next -> 4, name -> 110
    put_u32(&mut b, 50, 0);
    put_u32(&mut b, 62, 106);
    b[67] = 2;
    b[100..104].copy_from_slice(b"one\0");
    b[110..114].copy_from_slice(b"two\0");
    let (next, l) = object_type_list(&b, 0).unwrap();
    assert_eq!(next, 12);
    assert_eq!(l.len(), 2);
    assert_eq!((l[0].name.as_str(), l[0].id), ("one", 1));
    assert_eq!((l[1].name.as_str(), l[1].id), ("two", 2));
    put_u32(&mut b, 8, 0);
    assert_eq!(object_type_list(&b, 0).unwrap().1.len(), 0);
    assert_eq!(object_type_list(&b, 110).err(), Some(ParseError::Eof));
}

#[test]
fn texture_slot_fields() {
    let mut main = vec![0u8; 120];
    let p = 8;
    put_u32(&mut main, p, 0); // no texture
    main[p + 4] = 1;
    main[p + 5] = 2;
    main[p + 6] = 3;
    main[p + 7] = 4;
    put_u32(&mut main, p + 8, 0x55);
    put_u32(&mut main, p + 20, 1.5f32.to_bits());
    put_u32(&mut main, p + 48, (-2.0f32).to_bits());
    put_u32(&mut main, p + 68, 9);
    let f = files(&[], &main, HashMap::new());
    let (next, s) = visual_material_texture(&f, p).unwrap();
    assert_eq!(next, p + 72);
    assert_eq!(s.offset, 4);
    assert_eq!((s.texture_op, s.shading_mode, s.uv_function, s.scroll_byte), (1, 2, 3, 4));
    assert_eq!(s.properties, 0x55);
    assert_eq!(f32::from_bits(s.scroll_x), 1.5);
    assert_eq!(f32::from_bits(s.current_scroll_y), -2.0);
    assert_eq!(s.blend_index, 9);
    assert_eq!(visual_material_texture(&f, 60).err(), Some(ParseError::Eof));
    // a slot whose texture cannot be read fails even though the texture is not kept
    put_u32(&mut main, p, 500);
    let f = files(&[], &main, HashMap::new());
    assert_eq!(visual_material_texture(&f, p).err(), Some(ParseError::OutOfBounds));
}

#[test]
fn anim_texture_needs_a_texture_and_does_not_move() {
    let mut main = vec![0u8; 200];
    put_u32(&mut main, 8, 96);
    put_u32(&mut main, 12, 0.25f32.to_bits());
    write_texture(&mut main, 100, b"anim\0");
    let f = files(&[], &main, HashMap::new());
    let (next, a) = anim_texture(&f, 8).unwrap();
    assert_eq!(next, 8);
    assert_eq!(a.off_texture, 96);
    assert_eq!(f32::from_bits(a.time), 0.25);
    assert_eq!(a.texture.name, "anim");
    put_u32(&mut main, 8, 0);
    let f = files(&[], &main, HashMap::new());
    assert_eq!(anim_texture(&f, 8).err(), Some(ParseError::MissingTexture));
    assert_eq!(anim_texture(&f, 195).err(), Some(ParseError::Eof));
}

/// A main level with a material whose offset word is at 4 and record at 24.
fn material_level(num_anim: u16) -> Vec<u8> {
    let mut main = vec![0u8; 800];
    put_u32(&mut main, 4, 20); // material at 24
    let m = 24;
    put_u32(&mut main, m, 0xF00D);
    put_u32(&mut main, m + 4, 1.0f32.to_bits());
    put_u32(&mut main, m + 64, 0.5f32.to_bits());
    put_u32(&mut main, m + 72, 600); // animated textures' offset word at 604
    put_u32(&mut main, m + 76, 0x77);
    put_u16(&mut main, m + 80, num_anim);
    main[m + 90] = 0x5A;
    put_u32(&mut main, m + 100, 2);
    for i in 0..4 {
        main[m + 104 + 72 * i + 4] = i as u8 + 1;
    }
    put_u32(&mut main, 604, 616); // texture record at 620
    write_texture(&mut main, 620, b"water\0");
    main
}

#[test]
fn visual_material_reads_four_slots_and_copies_of_its_animated_texture() {
    let main = material_level(3);
    let f = files(&[], &main, HashMap::new());
    let (next, vm) = visual_material(&f, 4).unwrap();
    assert_eq!(next, 8);
    assert_eq!(vm.flags, 0xF00D);
    assert_eq!(f32::from_bits(vm.ambient_coef.0), 1.0);
    assert_eq!(f32::from_bits(vm.color.3), 0.5);
    assert_eq!(vm.off_anim_textures_first, 600);
    assert_eq!(vm.off_anim_textures_current, 0x77);
    assert_eq!(vm.num_anim_textures, 3);
    assert_eq!(vm.properties, 0x5A);
    assert_eq!(vm.num_textures_in_material, 2);
    assert_eq!(vm.textures.len(), 4);
    for i in 0..4 {
        assert_eq!(vm.textures[i].texture_op, i as u8 + 1);
        assert_eq!(vm.textures[i].offset as usize, 24 + 104 + 72 * i - 4);
    }
    assert_eq!(vm.anim_textures.len(), 3);
    for a in &vm.anim_textures {
        assert_eq!(a.off_texture, 616);
        assert_eq!(a.texture.name, "water");
    }
}

#[test]
fn visual_material_errors() {
    let main = material_level(0);
    let f = files(&[], &main, HashMap::new());
    assert_eq!(visual_material(&f, 4).unwrap().1.anim_textures.len(), 0);
    let mut bad = material_level(1);
    put_u32(&mut bad, 604, 0);
    assert_eq!(visual_material(&files(&[], &bad, HashMap::new()), 4).err(), Some(ParseError::MissingTexture));
    let mut far = material_level(1);
    put_u32(&mut far, 4, 900);
    assert_eq!(visual_material(&files(&[], &far, HashMap::new()), 4).err(), Some(ParseError::OutOfBounds));
    let mut anim_far = material_level(1);
    put_u32(&mut anim_far, 24 + 72, 797);
    assert_eq!(visual_material(&files(&[], &anim_far, HashMap::new()), 4).err(), Some(ParseError::OutOfBounds));
    assert_eq!(visual_material(&files(&[], &main, HashMap::new()), 798).err(), Some(ParseError::Eof));
}

#[test]
fn pointer_table_and_map() {
    let mut b = vec![0u8; 28];
    put_u32(&mut b, 0, 3);
    put_u32(&mut b, 4, 0);
    put_u32(&mut b, 8, 100);
    put_u32(&mut b, 12, 1);
    put_u32(&mut b, 16, 200);
    put_u32(&mut b, 20, 5);
    put_u32(&mut b, 24, 100);
    let pairs = pointer_table(&b).unwrap();
    assert_eq!(pairs, vec![(0, 100), (1, 200), (5, 100)]);
    let m = pointer_map(&pairs);
    assert_eq!(m.len(), 2);
    assert_eq!(m.get(&100), Some(&5));
    assert_eq!(m.get(&200), Some(&1));
    assert_eq!(m.get(&0), None);
    put_u32(&mut b, 0, 4);
    assert_eq!(pointer_table(&b), Err(ParseError::Eof));
    assert_eq!(pointer_table(&[1, 2]), Err(ParseError::Eof));
    assert_eq!(pointer_table(&[0, 0, 0, 0]), Ok(vec![]));
}

#[test]
fn header_blocks() {
    let mut b = vec![0u8; 200];
    for i in 0..50 {
        put_u32(&mut b, 4 * i, i as u32);
    }
    let l = list_header(&b, 8).unwrap();
    assert_eq!((l.head, l.tail, l.num_elements), (2, 3, 4));
    assert_eq!(list_header(&b, 190), Err(ParseError::Eof));
    let (g, persos) = globals(&b, 0).unwrap();
    assert_eq!(g.off_actual_world, 0);
    assert_eq!(g.off_father_sector, 3);
    assert_eq!(g.num_always, 5);
    assert_eq!((persos.head, persos.tail, persos.num_elements), (6, 7, 8));
    assert_eq!(g.off_always_reusable_so, 9);
    assert_eq!(g.off_always_reusable_unknown2, 11);
    assert_eq!(globals(&b, 160), Err(ParseError::Eof));
    let h = world_header(&b, 0).unwrap();
    assert_eq!(h.off_light, 0);
    assert_eq!(h.viewport, 4);
    assert_eq!(h.families.head, 8);
    assert_eq!(h.main_characters.num_elements, 16);
    assert_eq!(h.cinematic_manager, 21);
    assert_eq!((h.unk0, h.ipo_num_rli_tables, h.unk1), (22, 0, 0));
    assert_eq!(h.off_col_tagged_faces_table, 23);
    assert_eq!(h.num_visual_materials, 35);
    assert_eq!(h.off_array_visual_materials, 36);
    assert_eq!(h.off_dynamic_so_list, 37);
    assert_eq!(world_header(&b, 49), Err(ParseError::Eof));
    let (q, words) = u32_array(&b, 8, 3).unwrap();
    assert_eq!((q, words), (20, vec![2, 3, 4]));
    assert_eq!(u32_array(&b, 190, 3), Err(ParseError::Eof));
}

/// A main level with every texture in the fixed level, laid out as the
/// reader expects it; returns it with the position of its world header.
fn whole_level() -> (Vec<u8>, usize) {
    let mut main = vec![0u8; 5200];
    put_u32(&mut main, 292, 1022); // two textures of the level's own
    put_u32(&mut main, 296, 0);
    put_u32(&mut main, 300, 4996); // record at 5000
    write_texture(&mut main, 5000, b"own\0");
    let t = 304;
    for i in 0..1024 {
        put_u32(&mut main, t + 4 * i, i as u32);
    }
    let l = t + 4096;
    put_u32(&mut main, l, 0); // no light texture
    let g = l + 4;
    put_u32(&mut main, g + 20, 6); // num_always
    for k in 0..3 {
        let p = g + 48 + 12 * k;
        put_u32(&mut main, p, 0);
        put_u32(&mut main, p + 8, 0);
    }
    let h = g + 48 + 36;
    put_u32(&mut main, h + 148, 4900); // dynamic super objects at 4904
    put_u32(&mut main, 4904, 11);
    put_u32(&mut main, 4908, 12);
    put_u32(&mut main, 4912, 13);
    put_u32(&mut main, h + 140, 0); // no materials
    put_u32(&mut main, h + 144, 0);
    (main, h)
}

#[test]
fn parse_whole_level() {
    let (main, h) = whole_level();
    let level = parse_level(&main, &[0, 0, 0, 0], &[]).unwrap();
    assert_eq!(level.num_textures_fix, 1022);
    assert_eq!(level.textures.len(), 2);
    assert!(level.textures[0].is_none());
    assert_eq!(level.textures[1].as_ref().unwrap().name, "own");
    assert_eq!(level.texture_counts.len(), 1024);
    assert_eq!(level.texture_counts[1023], 1023);
    assert!(level.light_texture.is_none());
    assert_eq!(level.globals.num_always, 6);
    assert_eq!(level.object_types.len(), 3);
    assert!(level.object_types.iter().all(|l| l.is_empty()));
    assert_eq!(level.header.off_dynamic_so_list, 4900);
    assert_eq!(h, 304 + 4096 + 4 + 48 + 36);
    let d = &level.dynamic_super_objects;
    assert_eq!((d.head, d.tail, d.num_elements), (11, 12, 13));
    assert!(level.materials.is_empty());
}

#[test]
fn parse_level_errors() {
    let (main, h) = whole_level();
    assert_eq!(parse_level(&main[..291], &[0, 0, 0, 0], &[]).err(), Some(ParseError::OutOfBounds));
    assert_eq!(parse_level(&main[..294], &[0, 0, 0, 0], &[]).err(), Some(ParseError::Eof));
    let mut many = main.clone();
    put_u32(&mut many, 292, 1025);
    assert_eq!(parse_level(&many, &[0, 0, 0, 0], &[]).err(), Some(ParseError::TooManyFixTextures));
    assert_eq!(parse_level(&main, &[1, 0, 0, 0], &[]).err(), Some(ParseError::Eof));
    let mut far = main.clone();
    put_u32(&mut far, h + 148, 5197);
    assert_eq!(parse_level(&far, &[0, 0, 0, 0], &[]).err(), Some(ParseError::OutOfBounds));
    let mut mats = main.clone();
    put_u32(&mut mats, h + 140, 1);
    put_u32(&mut mats, h + 144, 5192); // its offset word at 5196 is 0: record at 4
    assert!(parse_level(&mats, &[0, 0, 0, 0], &[]).is_ok());
    // the level's own texture is looked up in the fixed level, which is empty
    let mut ptr = vec![0u8; 12];
    put_u32(&mut ptr, 0, 1);
    put_u32(&mut ptr, 4, 0);
    put_u32(&mut ptr, 8, 296);
    assert_eq!(parse_level(&main, &ptr, &[]).err(), Some(ParseError::OutOfBounds));
}
