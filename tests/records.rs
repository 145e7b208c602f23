use pmx::{
    BoneFlagSet, BoneFlags, BoneIndex, BoneReader, Connection, DisplayReader, Error, Frame,
    HeaderReader, IndexSize, MaterialReader, MorphIndex, MorphKind, MorphOffset, MorphReader,
    PhysicsMode, RigidBodyReader, ShapeType, Source, SurfaceReader, TextEncoding, TextureIndex,
    TextureReader, Toon, VertexReader, WeightDeform,
};

fn push_i32(out: &mut Vec<u8>, v: i32) {
    out.extend_from_slice(&v.to_le_bytes());
}

fn push_f32(out: &mut Vec<u8>, v: f32) {
    out.extend_from_slice(&v.to_le_bytes());
}

fn push_text(out: &mut Vec<u8>, s: &str) {
    push_i32(out, s.len() as i32);
    out.extend_from_slice(s.as_bytes());
}

/// A UTF-8 file whose sections before section `at` are empty, and whose section `at`
/// (1 = vertex ... 9 = joint) holds `count` records with bytes `body`; references use
/// `width` bytes.
fn file(at: usize, count: i32, body: &[u8], width: u8) -> Vec<u8> {
    let mut out = b"PMX ".to_vec();
    push_f32(&mut out, 2.0);
    out.push(8);
    out.extend_from_slice(&[1, 0, width, width, width, width, width, width]);
    for _ in 0..4 {
        push_text(&mut out, "");
    }
    for _ in 1..at {
        push_i32(&mut out, 0);
    }
    push_i32(&mut out, count);
    out.extend_from_slice(body);
    out
}

fn bones(data: Vec<u8>) -> BoneReader {
    let v = VertexReader::new(HeaderReader::new(data).unwrap()).unwrap();
    let t = TextureReader::new(SurfaceReader::new(v).unwrap()).unwrap();
    BoneReader::new(MaterialReader::new(t).unwrap()).unwrap()
}

fn weight_deform(tag: u8, body: &[u8]) -> Result<WeightDeform, Error> {
    let mut bytes = vec![tag];
    bytes.extend_from_slice(body);
    Source::new(bytes).read_weight_deform(IndexSize::I16)
}

#[test]
fn each_weight_tag_selects_its_form() {
    let mut body = Vec::new();
    for i in 0..4u16 {
        body.extend_from_slice(&(i + 1).to_le_bytes());
    }
    for _ in 0..13 {
        push_f32(&mut body, 0.25);
    }
    assert!(matches!(weight_deform(0, &body), Ok(WeightDeform::Bdef1(b)) if b.bone_index == BoneIndex(1)));
    match weight_deform(1, &body).unwrap() {
        WeightDeform::Bdef2(b) => {
            assert_eq!(b.bone_1_index, BoneIndex(1));
            assert_eq!(b.bone_2_index, BoneIndex(2));
            assert_eq!(b.bone_1_weight, 0x0004_0003);
        },
        _ => panic!("tag 1 is not BDEF2"),
    }
    match weight_deform(2, &body).unwrap() {
        WeightDeform::Bdef4(b) => {
            assert_eq!(b.bone_4_index, BoneIndex(4));
            assert_eq!(b.bone_4_weight, 0.25f32.to_bits());
        },
        _ => panic!("tag 2 is not BDEF4"),
    }
    match weight_deform(3, &body).unwrap() {
        WeightDeform::Sdef(s) => {
            assert_eq!(s.bone_2_index, BoneIndex(2));
            assert_eq!(s.r1.z, 0.25f32.to_bits());
        },
        _ => panic!("tag 3 is not SDEF"),
    }
    match weight_deform(4, &body).unwrap() {
        WeightDeform::Qdef(q) => {
            assert_eq!(q.bone_3_index, BoneIndex(3));
            assert_eq!(q.bone_1_weight, 0.25f32.to_bits());
        },
        _ => panic!("tag 4 is not QDEF"),
    }
}

#[test]
fn unknown_weight_tag_carries_its_byte() {
    assert_eq!(weight_deform(5, &[0u8; 64]), Err(Error::UnknownWeightType(5)));
}

#[test]
fn truncated_weight_payload_ends_early() {
    assert_eq!(weight_deform(1, &[0u8; 5]), Err(Error::UnexpectedEnd));
}

#[test]
fn one_byte_references_round_trip() {
    for v in -128i32..=127 {
        let mut s = Source::new(vec![v as i8 as u8]);
        assert_eq!(s.read_index(IndexSize::I8), Ok(v));
        assert_eq!(s.pos(), 1);
    }
}

#[test]
fn two_byte_references_round_trip() {
    for v in (-32768i32..=32767).step_by(7).chain([32767, -1]) {
        let mut s = Source::new((v as i16).to_le_bytes().to_vec());
        assert_eq!(s.read_index(IndexSize::I16), Ok(v));
    }
}

#[test]
fn four_byte_references_round_trip() {
    for v in [i32::MIN, -70000, -1, 0, 1, 300, 65536, i32::MAX] {
        let mut s = Source::new(v.to_le_bytes().to_vec());
        assert_eq!(s.read_index(IndexSize::I32), Ok(v));
        assert_eq!(s.pos(), 4);
    }
}

#[test]
fn minus_one_means_no_reference() {
    let mut s = Source::new(vec![0xff, 0xff, 0xff, 0xff, 0xff, 0xff, 0xff]);
    assert_eq!(BoneIndex(s.read_index(IndexSize::I8).unwrap()).get(), None);
    assert_eq!(TextureIndex(s.read_index(IndexSize::I16).unwrap()).get(), None);
    assert_eq!(MorphIndex(s.read_index(IndexSize::I32).unwrap()).get(), None);
    assert_eq!(BoneIndex(7).get(), Some(7));
}

#[test]
fn short_reference_ends_early() {
    let mut s = Source::new(vec![1, 2, 3]);
    assert_eq!(s.read_index(IndexSize::I32), Err(Error::UnexpectedEnd));
}

#[test]
fn little_endian_reads() {
    let mut s = Source::new(vec![0x34, 0x12, 0xfe, 0xff, 0x78, 0x56, 0x34, 0x12, 0xfe, 0xff, 0xff, 0xff]);
    assert_eq!(s.read_u16(), Ok(0x1234));
    assert_eq!(s.read_i16(), Ok(-2));
    assert_eq!(s.read_u32(), Ok(0x1234_5678));
    assert_eq!(s.read_i32(), Ok(-2));
    assert_eq!(s.read_u8(), Err(Error::UnexpectedEnd));
}

#[test]
fn utf16_text_is_decoded() {
    let mut s = Source::new(vec![4, 0, 0, 0, b'a', 0, b'b', 0]);
    assert_eq!(s.read_text(TextEncoding::Utf16Le).unwrap(), "ab");
}

#[test]
fn empty_text_is_an_empty_string() {
    let mut s = Source::new(vec![0, 0, 0, 0]);
    assert_eq!(s.read_text(TextEncoding::Utf8).unwrap(), "");
    assert_eq!(s.pos(), 4);
}

#[test]
fn invalid_utf8_is_refused() {
    let mut s = Source::new(vec![2, 0, 0, 0, 0xc3, 0x28]);
    assert_eq!(s.read_text(TextEncoding::Utf8), Err(Error::InvalidText));
}

#[test]
fn invalid_utf16_is_refused() {
    let mut s = Source::new(vec![2, 0, 0, 0, 0x00, 0xd8]);
    assert_eq!(s.read_text(TextEncoding::Utf16Le), Err(Error::InvalidText));
    let mut odd = Source::new(vec![3, 0, 0, 0, b'a', 0, b'b']);
    assert_eq!(odd.read_text(TextEncoding::Utf16Le), Err(Error::InvalidText));
}

#[test]
fn ik_only_bone_decodes_only_the_chain() {
    let mut body = Vec::new();
    push_text(&mut body, "bone");
    push_text(&mut body, "");
    push_f32(&mut body, 1.0);
    push_f32(&mut body, 2.0);
    push_f32(&mut body, 3.0);
    body.push(0xff);
    push_i32(&mut body, 0);
    body.extend_from_slice(&0x0020u16.to_le_bytes());
    for _ in 0..3 {
        push_f32(&mut body, 0.5);
    }
    body.push(4);
    push_i32(&mut body, 40);
    push_f32(&mut body, 0.125);
    push_i32(&mut body, 2);
    body.extend_from_slice(&[5, 0]);
    body.extend_from_slice(&[6, 1]);
    for _ in 0..6 {
        push_f32(&mut body, -1.0);
    }
    let mut r = bones(file(5, 1, &body, 1));
    let bone = r.next().unwrap().unwrap();
    assert_eq!(bone.local_name, "bone");
    assert_eq!(bone.parent, BoneIndex(-1));
    assert!(bone.bone_flags.contains(BoneFlags::InverseKinematics));
    assert!(!bone.bone_flags.contains(BoneFlags::Connection));
    assert_eq!(bone.connection, Connection::Position(pmx::Vec3 {
        x: 0.5f32.to_bits(),
        y: 0.5f32.to_bits(),
        z: 0.5f32.to_bits(),
    }));
    assert!(bone.additional.is_none());
    assert!(bone.fixed_axis.is_none());
    assert!(bone.local_axis.is_none());
    assert!(bone.external_parent_transform.is_none());
    let ik = bone.inverse_kinematics.unwrap();
    assert_eq!(ik.ik_bone, BoneIndex(4));
    assert_eq!(ik.iterations, 40);
    assert_eq!(ik.links.len(), 2);
    assert!(ik.links[0].limits.is_none());
    assert_eq!(ik.links[1].ik_bone, BoneIndex(6));
    assert_eq!(ik.links[1].limits.unwrap().max.z, (-1.0f32).to_bits());
    assert!(r.next().unwrap().is_none());
    assert_eq!(r.remaining, 0);
}

#[test]
fn flagged_bone_sub_structures_follow_in_order() {
    let mut body = Vec::new();
    push_text(&mut body, "b");
    push_text(&mut body, "b");
    body.extend_from_slice(&[0u8; 12]);
    body.push(0);
    push_i32(&mut body, 1);
    let flags = BoneFlags::Connection.mask()
        | BoneFlags::AddRotation.mask()
        | BoneFlags::FixedAxis.mask()
        | BoneFlags::LocalAxis.mask()
        | BoneFlags::ExternalParentTransform.mask();
    body.extend_from_slice(&flags.to_le_bytes());
    body.push(3);
    body.push(2);
    push_f32(&mut body, 0.75);
    body.extend_from_slice(&[0u8; 12]);
    body.extend_from_slice(&[0u8; 24]);
    push_i32(&mut body, 9);
    let mut r = bones(file(5, 1, &body, 1));
    let bone = r.next().unwrap().unwrap();
    assert_eq!(bone.bone_flags, BoneFlagSet { bits: flags });
    assert_eq!(bone.connection, Connection::Index(BoneIndex(3)));
    let add = bone.additional.unwrap();
    assert_eq!(add.parent, BoneIndex(2));
    assert_eq!(add.rate, 0.75f32.to_bits());
    assert!(bone.fixed_axis.is_some());
    assert!(bone.local_axis.is_some());
    assert_eq!(bone.external_parent_transform, Some(9));
    assert!(bone.inverse_kinematics.is_none());
}

#[test]
fn display_frames_list_their_targets() {
    let mut body = Vec::new();
    push_text(&mut body, "Root");
    push_text(&mut body, "Root");
    body.push(1);
    body.extend_from_slice(&2u32.to_le_bytes());
    body.extend_from_slice(&[0, 7, 1, 3]);
    let data = file(7, 1, &body, 1);
    let b = bones(data);
    let mut d = DisplayReader::new(MorphReader::new(b).unwrap()).unwrap();
    let frame = {
        let mut it = d.iter();
        it.next().unwrap().unwrap()
    };
    assert!(frame.special_flag);
    assert_eq!(frame.frames, vec![Frame::Bone(BoneIndex(7)), Frame::Morph(MorphIndex(3))]);
    assert!(d.iter().next().is_none());
}

#[test]
fn unknown_frame_target_carries_its_byte() {
    let mut body = Vec::new();
    push_text(&mut body, "");
    push_text(&mut body, "");
    body.push(0);
    body.extend_from_slice(&1u32.to_le_bytes());
    body.extend_from_slice(&[2, 0]);
    let mut d = DisplayReader::new(MorphReader::new(bones(file(7, 1, &body, 1))).unwrap()).unwrap();
    assert!(matches!(d.next(), Err(Error::InvalidFrameType(2))));
}

fn rigid_body(shape: u8, mode: u8) -> Vec<u8> {
    let mut body = Vec::new();
    push_text(&mut body, "rb");
    push_text(&mut body, "");
    body.push(2);
    body.push(1);
    body.extend_from_slice(&0x8001u16.to_le_bytes());
    body.push(shape);
    for _ in 0..14 {
        push_f32(&mut body, 1.5);
    }
    body.push(mode);
    body
}

fn rigid_bodies(body: &[u8]) -> RigidBodyReader {
    let b = bones(file(8, 1, body, 1));
    RigidBodyReader::new(DisplayReader::new(MorphReader::new(b).unwrap()).unwrap()).unwrap()
}

#[test]
fn rigid_body_fields_are_decoded() {
    let mut r = rigid_bodies(&rigid_body(2, 1));
    let rb = {
        let mut it = r.iter();
        it.next().unwrap().unwrap()
    };
    assert_eq!(rb.bone_index, BoneIndex(2));
    assert_eq!(rb.group_id, 1);
    assert_eq!(rb.non_collision_mask, 0x8001);
    assert_eq!(rb.shape, ShapeType::Capsule);
    assert_eq!(rb.fiction, 1.5f32.to_bits());
    assert_eq!(rb.physics_mode, PhysicsMode::Dynamic);
    assert_eq!(r.remaining, 0);
}

#[test]
fn unknown_shape_carries_its_byte() {
    let mut r = rigid_bodies(&rigid_body(3, 0));
    assert!(matches!(r.next(), Err(Error::InvalidShapeType(3))));
}

#[test]
fn unknown_physics_mode_carries_its_byte() {
    let mut r = rigid_bodies(&rigid_body(0, 9));
    assert!(matches!(r.next(), Err(Error::InvalidPhysicsMode(9))));
}

#[test]
fn shape_and_mode_bytes_map_totally() {
    assert_eq!(ShapeType::try_from(1), Ok(ShapeType::Box));
    assert_eq!(ShapeType::try_from(7), Err(Error::InvalidShapeType(7)));
    assert_eq!(PhysicsMode::try_from(2), Ok(PhysicsMode::DynamicPivoted));
    assert_eq!(PhysicsMode::try_from(3), Err(Error::InvalidPhysicsMode(3)));
}

#[test]
fn group_morph_offsets_are_decoded() {
    let mut body = Vec::new();
    push_text(&mut body, "m");
    push_text(&mut body, "m");
    body.push(4);
    body.push(0);
    push_i32(&mut body, 2);
    body.push(1);
    push_f32(&mut body, 0.5);
    body.push(2);
    push_f32(&mut body, 1.0);
    let mut m = MorphReader::new(bones(file(6, 1, &body, 1))).unwrap();
    let morph = m.next().unwrap().unwrap();
    assert_eq!(morph.panel, 4);
    assert_eq!(morph.kind, MorphKind::Group);
    assert_eq!(morph.offsets.len(), 2);
    assert!(matches!(morph.offsets[1], MorphOffset::Group(w) if w.morph == MorphIndex(2)));
}

#[test]
fn unknown_morph_kind_carries_its_byte() {
    let mut body = Vec::new();
    push_text(&mut body, "");
    push_text(&mut body, "");
    body.push(0);
    body.push(11);
    push_i32(&mut body, 0);
    let mut m = MorphReader::new(bones(file(6, 1, &body, 1))).unwrap();
    assert!(matches!(m.next(), Err(Error::InvalidMorphType(11))));
}

fn material(toon: &[u8]) -> Vec<u8> {
    let mut body = Vec::new();
    push_text(&mut body, "mat");
    push_text(&mut body, "");
    for _ in 0..11 {
        push_f32(&mut body, 0.5);
    }
    body.push(0x10);
    for _ in 0..5 {
        push_f32(&mut body, 1.0);
    }
    body.extend_from_slice(&[0, 0xff, 2]);
    body.extend_from_slice(toon);
    push_text(&mut body, "memo");
    push_i32(&mut body, 36);
    body
}

fn materials(body: &[u8]) -> MaterialReader {
    let v = VertexReader::new(HeaderReader::new(file(4, 1, body, 1)).unwrap()).unwrap();
    MaterialReader::new(TextureReader::new(SurfaceReader::new(v).unwrap()).unwrap()).unwrap()
}

#[test]
fn material_fields_are_decoded() {
    let mut r = materials(&material(&[1, 3]));
    let m = r.next().unwrap().unwrap();
    assert_eq!(m.local_name, "mat");
    assert_eq!(m.draw_flags, 0x10);
    assert_eq!(m.texture, TextureIndex(0));
    assert_eq!(m.environment.get(), None);
    assert_eq!(m.environment_blend_mode, 2);
    assert_eq!(m.toon, Toon::Internal(3));
    assert_eq!(m.metadata, "memo");
    assert_eq!(m.surface_count, 36);
}

#[test]
fn unknown_toon_reference_carries_its_byte() {
    let mut r = materials(&material(&[2, 0]));
    assert!(matches!(r.next(), Err(Error::InvalidToonReference(2))));
}

#[test]
fn textures_are_paths() {
    let mut body = Vec::new();
    push_text(&mut body, "tex/a.png");
    push_text(&mut body, "b.bmp");
    let v = VertexReader::new(HeaderReader::new(file(3, 2, &body, 1)).unwrap()).unwrap();
    let mut t = TextureReader::new(SurfaceReader::new(v).unwrap()).unwrap();
    assert_eq!(t.next().unwrap().unwrap(), "tex/a.png");
    assert_eq!(t.next().unwrap().unwrap(), "b.bmp");
    assert!(t.next().unwrap().is_none());
    assert!(t.next().unwrap().is_none());
}
