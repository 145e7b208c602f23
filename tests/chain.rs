use pmx::{
    Bdef1, BoneIndex, BoneReader, DisplayReader, Error, HeaderReader, JointReader, JointType,
    MaterialReader, MorphReader, RigidBodyReader, SurfaceReader, TextEncoding, TextureReader,
    VertexIndex, VertexReader, WeightDeform,
};

fn push_i32(out: &mut Vec<u8>, v: i32) {
    out.extend_from_slice(&v.to_le_bytes());
}

fn push_text(out: &mut Vec<u8>, s: &str) {
    push_i32(out, s.len() as i32);
    out.extend_from_slice(s.as_bytes());
}

/// A UTF-8 header with one-byte references everywhere and no additional vec4s.
fn header() -> Vec<u8> {
    let mut out = b"PMX ".to_vec();
    out.extend_from_slice(&2.0f32.to_le_bytes());
    out.push(8);
    out.extend_from_slice(&[1, 0, 1, 1, 1, 1, 1, 1]);
    for _ in 0..4 {
        push_text(&mut out, "");
    }
    out
}

/// One BDEF1 vertex bound to bone `bone` at one-byte width.
fn push_bdef1_vertex(out: &mut Vec<u8>, bone: u8) {
    out.extend_from_slice(&[0u8; 32]);
    out.push(0);
    out.push(bone);
    out.extend_from_slice(&1.0f32.to_le_bytes());
}

fn minimal_file() -> Vec<u8> {
    let mut out = header();
    push_i32(&mut out, 1);
    push_bdef1_vertex(&mut out, 0);
    push_i32(&mut out, 3);
    out.extend_from_slice(&[0, 0, 0]);
    for _ in 0..7 {
        push_i32(&mut out, 0);
    }
    out
}

#[test]
fn minimal_file_decodes_one_vertex_and_one_surface() {
    let data = minimal_file();
    let len = data.len();
    let h = HeaderReader::new(data).unwrap();
    assert_eq!(h.settings.text_encoding, TextEncoding::Utf8);
    assert_eq!(h.settings.additional_vec4_count, 0);
    let mut v = VertexReader::new(h).unwrap();
    assert_eq!(v.count, 1);
    let vertex = v.next_vertex().unwrap().unwrap();
    assert_eq!(vertex.weight_deform, WeightDeform::Bdef1(Bdef1 { bone_index: BoneIndex(0) }));
    assert_eq!(vertex.edge_scale, 1.0f32.to_bits());
    assert!(v.next_vertex().unwrap().is_none());
    assert_eq!(v.remaining, 0);
    let mut s = SurfaceReader::new(v).unwrap();
    assert_eq!(s.count, 3);
    let surface = s.next().unwrap().unwrap();
    assert_eq!(surface.a, VertexIndex(0));
    assert_eq!(surface.b, VertexIndex(0));
    assert_eq!(surface.c, VertexIndex(0));
    assert!(s.next().unwrap().is_none());
    assert_eq!(s.remaining, 0);
    let t = TextureReader::new(s).unwrap();
    assert_eq!(t.remaining, 0);
    let m = MaterialReader::new(t).unwrap();
    assert_eq!(m.remaining, 0);
    let b = BoneReader::new(m).unwrap();
    assert_eq!(b.remaining, 0);
    let mo = MorphReader::new(b).unwrap();
    assert_eq!(mo.remaining, 0);
    let d = DisplayReader::new(mo).unwrap();
    assert_eq!(d.remaining, 0);
    let r = RigidBodyReader::new(d).unwrap();
    assert_eq!(r.remaining, 0);
    let mut j = JointReader::new(r).unwrap();
    assert_eq!(j.remaining, 0);
    assert!(j.next().unwrap().is_none());
    assert_eq!(j.read.pos(), len);
}

#[test]
fn draining_does_not_depend_on_records_read() {
    let mut data = header();
    push_i32(&mut data, 3);
    for bone in 0..3u8 {
        push_bdef1_vertex(&mut data, bone);
    }
    push_i32(&mut data, 6);
    data.extend_from_slice(&[0, 1, 2, 2, 1, 0]);

    let unread = VertexReader::new(HeaderReader::new(data.clone()).unwrap()).unwrap();
    let s_unread = SurfaceReader::new(unread).unwrap();

    let mut all = VertexReader::new(HeaderReader::new(data.clone()).unwrap()).unwrap();
    let mut bones = Vec::new();
    {
        let mut it = all.iter();
        while let Some(v) = it.next() {
            match v.unwrap().weight_deform {
                WeightDeform::Bdef1(b) => bones.push(b.bone_index),
                _ => panic!("unexpected form"),
            }
        }
    }
    assert_eq!(bones, vec![BoneIndex(0), BoneIndex(1), BoneIndex(2)]);
    let s_all = SurfaceReader::new(all).unwrap();

    let mut one = VertexReader::new(HeaderReader::new(data).unwrap()).unwrap();
    one.next_vertex().unwrap().unwrap();
    let s_one = SurfaceReader::new(one).unwrap();

    assert_eq!(s_unread.read.pos(), s_all.read.pos());
    assert_eq!(s_unread.read.pos(), s_one.read.pos());
    assert_eq!(s_unread.count, 6);
    assert_eq!(s_all.remaining, 2);
}

#[test]
fn invalid_joint_type_fails_with_its_byte() {
    let mut data = header();
    for _ in 0..2 {
        push_i32(&mut data, 0);
    }
    for _ in 0..6 {
        push_i32(&mut data, 0);
    }
    push_i32(&mut data, 2);
    let joint = |out: &mut Vec<u8>, kind: u8| {
        push_text(out, "j");
        push_text(out, "j");
        out.push(kind);
        out.extend_from_slice(&[0, 1]);
        out.extend_from_slice(&[0u8; 96]);
    };
    joint(&mut data, 6);
    joint(&mut data, 5);
    let h = HeaderReader::new(data).unwrap();
    let v = VertexReader::new(h).unwrap();
    let r = RigidBodyReader::new(DisplayReader::new(MorphReader::new(BoneReader::new(
        MaterialReader::new(TextureReader::new(SurfaceReader::new(v).unwrap()).unwrap()).unwrap(),
    ).unwrap()).unwrap()).unwrap())
    .unwrap();
    let mut j = JointReader::new(r).unwrap();
    assert_eq!(j.count, 2);
    match j.next() {
        Err(e) => assert_eq!(e, Error::InvalidJointType(6)),
        Ok(_) => panic!("joint type 6 was accepted"),
    }
}

#[test]
fn joint_types_decode_from_their_bytes() {
    assert_eq!(JointType::try_from(0).unwrap(), JointType::SpringFree);
    assert_eq!(JointType::try_from(5).unwrap(), JointType::Hinge);
    match JointType::try_from(6) {
        Err(e) => assert_eq!(e, Error::InvalidJointType(6)),
        Ok(_) => panic!("accepted"),
    }
}

#[test]
fn bad_signature_is_refused() {
    let mut data = header();
    data[0] = b'Q';
    assert!(matches!(HeaderReader::new(data), Err(Error::InvalidSignature)));
}

#[test]
fn unknown_version_is_refused() {
    let mut data = header();
    data[4..8].copy_from_slice(&3.0f32.to_le_bytes());
    assert!(matches!(
        HeaderReader::new(data),
        Err(Error::UnsupportedVersion(v)) if v == 3.0f32.to_bits()
    ));
}

#[test]
fn short_global_count_is_refused() {
    let mut data = header();
    data[8] = 7;
    assert!(matches!(HeaderReader::new(data), Err(Error::InvalidGlobalCount(7))));
}

#[test]
fn bad_text_encoding_is_refused() {
    let mut data = header();
    data[9] = 2;
    assert!(matches!(HeaderReader::new(data), Err(Error::InvalidTextEncoding(2))));
}

#[test]
fn bad_additional_count_is_refused() {
    let mut data = header();
    data[10] = 5;
    assert!(matches!(HeaderReader::new(data), Err(Error::InvalidAdditionalCount(5))));
}

#[test]
fn bad_index_size_is_refused() {
    let mut data = header();
    data[14] = 3;
    assert!(matches!(HeaderReader::new(data), Err(Error::InvalidIndexSize(3))));
}

#[test]
fn truncated_header_ends_early() {
    let data = header();
    assert!(matches!(HeaderReader::new(data[..20].to_vec()), Err(Error::UnexpectedEnd)));
}

#[test]
fn header_names_are_decoded() {
    let mut data = b"PMX ".to_vec();
    data.extend_from_slice(&2.1f32.to_le_bytes());
    data.push(8);
    data.extend_from_slice(&[0, 4, 1, 2, 4, 1, 2, 4]);
    for s in ["モデル", "model", "", "c"] {
        let units: Vec<u16> = s.encode_utf16().collect();
        push_i32(&mut data, (units.len() * 2) as i32);
        for u in units {
            data.extend_from_slice(&u.to_le_bytes());
        }
    }
    let h = HeaderReader::new(data).unwrap();
    assert_eq!(h.settings.text_encoding, TextEncoding::Utf16Le);
    assert_eq!(h.settings.additional_vec4_count, 4);
    assert_eq!(h.model_local_name, "モデル");
    assert_eq!(h.model_universal_name, "model");
    assert_eq!(h.local_comment, "");
    assert_eq!(h.universal_comment, "c");
    assert_eq!(h.version, 2.1f32.to_bits());
}

#[test]
fn joint_type_failure_ignores_what_follows() {
    let decode = |tail: &[u8]| {
        let mut data = header();
        for _ in 0..8 {
            push_i32(&mut data, 0);
        }
        push_i32(&mut data, 1);
        push_text(&mut data, "j");
        push_text(&mut data, "");
        data.push(9);
        data.extend_from_slice(tail);
        let v = VertexReader::new(HeaderReader::new(data).unwrap()).unwrap();
        let t = TextureReader::new(SurfaceReader::new(v).unwrap()).unwrap();
        let b = BoneReader::new(MaterialReader::new(t).unwrap()).unwrap();
        let d = DisplayReader::new(MorphReader::new(b).unwrap()).unwrap();
        let mut j = JointReader::new(RigidBodyReader::new(d).unwrap()).unwrap();
        j.next().map(|o| o.is_some())
    };
    assert_eq!(decode(&[]), Err(Error::InvalidJointType(9)));
    assert_eq!(decode(&[0u8; 200]), Err(Error::InvalidJointType(9)));
}
