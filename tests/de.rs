use ms3d::de::{convert_flags, convert_path, convert_string, Reader};
use ms3d::layout::{
    HEADER_SIZE, KEY_FRAME_POS_SIZE, KEY_FRAME_ROT_SIZE, MATERIAL_SIZE, TRIANGLE_SIZE,
    VERTEX_SIZE,
};
use ms3d::model::{
    Error, Flags, Model, VertexExInfo, GROUP_ALLOWED_FLAGS, JOINT_ALLOWED_FLAGS,
    VERTEX_ALLOWED_FLAGS,
};
use ms3d::read::SliceReader;

fn put_u16(b: &mut Vec<u8>, v: u16) {
    b.extend_from_slice(&v.to_le_bytes());
}

fn put_i32(b: &mut Vec<u8>, v: i32) {
    b.extend_from_slice(&v.to_le_bytes());
}

fn put_u32(b: &mut Vec<u8>, v: u32) {
    b.extend_from_slice(&v.to_le_bytes());
}

fn put_f32(b: &mut Vec<u8>, v: f32) {
    b.extend_from_slice(&v.to_le_bytes());
}

fn put_name(b: &mut Vec<u8>, s: &[u8], width: usize) {
    let mut field = s.to_vec();
    field.resize(width, 0);
    b.extend_from_slice(&field);
}

fn put_comment(b: &mut Vec<u8>, index: i32, text: &str) {
    put_i32(b, index);
    put_i32(b, text.len() as i32);
    b.extend_from_slice(text.as_bytes());
}

/// Offsets of the places a test edits in a sample file.
struct Sample {
    bytes: Vec<u8>,
    vertex_flags: usize,
    group_flags: usize,
    joint_flags: usize,
    model_comment_count: usize,
    vertex_ex: usize,
    joint_ex: usize,
    model_ex: usize,
}

fn sample(model_comments: i32) -> Sample {
    let mut b = Vec::new();
    b.extend_from_slice(b"MS3D000000");
    put_i32(&mut b, 4);
    // vertices
    put_u16(&mut b, 2);
    let vertex_flags = b.len();
    for k in 0..2 {
        b.push(1);
        put_f32(&mut b, 1.0);
        put_f32(&mut b, 2.0 + k as f32);
        put_f32(&mut b, -3.5);
        b.push(0xff);
        b.push(3);
    }
    // triangles
    put_u16(&mut b, 1);
    put_u16(&mut b, 0x0102);
    for i in 0..3u16 {
        put_u16(&mut b, i);
    }
    for i in 0..9 {
        put_f32(&mut b, i as f32);
    }
    for i in 0..6 {
        put_f32(&mut b, 0.5 * i as f32);
    }
    b.push(7);
    b.push(0);
    // groups
    put_u16(&mut b, 1);
    let group_flags = b.len();
    b.push(2);
    put_name(&mut b, b"body", 32);
    put_u16(&mut b, 3);
    for i in [5u16, 6, 0x1234] {
        put_u16(&mut b, i);
    }
    b.push(0xff);
    // materials
    put_u16(&mut b, 1);
    put_name(&mut b, b"skin", 32);
    for i in 0..16 {
        put_f32(&mut b, i as f32 / 16.0);
    }
    put_f32(&mut b, 8.0);
    put_f32(&mut b, 1.0);
    b.push(0x80);
    put_name(&mut b, b"textures/skin.bmp", 128);
    put_name(&mut b, b"", 128);
    // key frame data
    put_f32(&mut b, 24.0);
    put_f32(&mut b, 1.5);
    put_i32(&mut b, 30);
    // joints
    put_u16(&mut b, 1);
    let joint_flags = b.len();
    b.push(8);
    put_name(&mut b, b"root", 32);
    put_name(&mut b, b"", 32);
    for i in 0..6 {
        put_f32(&mut b, i as f32);
    }
    put_u16(&mut b, 1);
    put_u16(&mut b, 2);
    for i in 0..3 {
        put_f32(&mut b, i as f32);
        for _ in 0..3 {
            put_f32(&mut b, 0.25);
        }
    }
    // comments
    put_i32(&mut b, 1);
    put_u32(&mut b, 1);
    put_comment(&mut b, 0, "group");
    put_i32(&mut b, 0);
    put_i32(&mut b, 2);
    put_comment(&mut b, 0, "joint one");
    put_comment(&mut b, 1, "h\u{e9}llo");
    let model_comment_count = b.len();
    put_i32(&mut b, model_comments);
    if model_comments >= 1 {
        put_comment(&mut b, 0, "model");
    }
    // vertex extension, sub-version 2
    let vertex_ex = b.len();
    put_i32(&mut b, 2);
    for k in 0..2u8 {
        b.push(0);
        b.push(1);
        b.push(0xfe);
        b.push(100);
        b.push(k);
        b.push(0);
        put_u32(&mut b, 0xdead_beef);
    }
    // joint extension
    let joint_ex = b.len();
    put_i32(&mut b, 1);
    for _ in 0..3 {
        put_f32(&mut b, 0.75);
    }
    // model extension
    let model_ex = b.len();
    put_i32(&mut b, 1);
    put_f32(&mut b, 1.0);
    put_i32(&mut b, 2);
    put_f32(&mut b, 0.5);
    Sample {
        bytes: b,
        vertex_flags,
        group_flags,
        joint_flags,
        model_comment_count,
        vertex_ex,
        joint_ex,
        model_ex,
    }
}

/// Writes a decoded model back out in the file layout.
fn encode(m: &Model) -> Vec<u8> {
    let mut b = Vec::new();
    b.extend_from_slice(b"MS3D000000");
    put_i32(&mut b, m.header.version);
    put_u16(&mut b, m.vertices.len() as u16);
    for v in &m.vertices {
        b.push(v.flags.bits);
        for x in v.vertex {
            put_u32(&mut b, x);
        }
        b.push(v.bone_id as u8);
        b.push(v.reference_count);
    }
    put_u16(&mut b, m.triangles.len() as u16);
    for t in &m.triangles {
        put_u16(&mut b, t.flags.bits as u16);
        for i in t.vertex_indices {
            put_u16(&mut b, i);
        }
        for n in t.vertex_normals {
            for x in n {
                put_u32(&mut b, x);
            }
        }
        for x in t.s.iter().chain(t.t.iter()) {
            put_u32(&mut b, *x);
        }
        b.push(t.smoothing_group);
        b.push(t.group_index);
    }
    put_u16(&mut b, m.groups.len() as u16);
    for g in &m.groups {
        b.push(g.flags.bits);
        put_name(&mut b, g.name.as_bytes(), 32);
        put_u16(&mut b, g.triangle_indices.len() as u16);
        for i in &g.triangle_indices {
            put_u16(&mut b, *i);
        }
        b.push(g.material_index as u8);
    }
    put_u16(&mut b, m.materials.len() as u16);
    for mat in &m.materials {
        put_name(&mut b, mat.name.as_bytes(), 32);
        for q in [mat.ambient, mat.diffuse, mat.specular, mat.emissive] {
            for x in q {
                put_u32(&mut b, x);
            }
        }
        put_u32(&mut b, mat.shininess);
        put_u32(&mut b, mat.transparency);
        b.push(mat.mode);
        put_name(&mut b, mat.texture.as_bytes(), 128);
        put_name(&mut b, mat.alphamap.as_bytes(), 128);
    }
    put_u32(&mut b, m.key_frame_data.animation_fps);
    put_u32(&mut b, m.key_frame_data.current_time);
    put_i32(&mut b, m.key_frame_data.total_frames);
    put_u16(&mut b, m.joints.len() as u16);
    for j in &m.joints {
        b.push(j.flags.bits);
        put_name(&mut b, j.name.as_bytes(), 32);
        put_name(&mut b, j.parent_name.as_bytes(), 32);
        for x in j.rotation.iter().chain(j.position.iter()) {
            put_u32(&mut b, *x);
        }
        put_u16(&mut b, j.key_frames_rot.len() as u16);
        put_u16(&mut b, j.key_frames_trans.len() as u16);
        for k in &j.key_frames_rot {
            put_u32(&mut b, k.time);
            for x in k.rotation {
                put_u32(&mut b, x);
            }
        }
        for k in &j.key_frames_trans {
            put_u32(&mut b, k.time);
            for x in k.position {
                put_u32(&mut b, x);
            }
        }
    }
    let c = &m.comments;
    put_i32(&mut b, c.sub_version);
    put_u32(&mut b, c.group_comments.len() as u32);
    for x in &c.group_comments {
        put_comment(&mut b, x.index, &x.comment);
    }
    for list in [&c.material_comments, &c.joint_comments] {
        put_i32(&mut b, list.len() as i32);
        for x in list {
            put_comment(&mut b, x.index, &x.comment);
        }
    }
    match &c.model_comment {
        None => put_i32(&mut b, 0),
        Some(x) => {
            put_i32(&mut b, 1);
            put_comment(&mut b, x.index, &x.comment);
        }
    }
    let ex = |b: &mut Vec<u8>, ids: [i8; 3], w: [u8; 3]| {
        for i in ids {
            b.push(i as u8);
        }
        b.extend_from_slice(&w);
    };
    match &m.vertex_ex_info {
        VertexExInfo::Absent => return b,
        VertexExInfo::SubVersion1(v) => {
            put_i32(&mut b, 1);
            for x in v {
                ex(&mut b, x.bone_ids, x.weights);
            }
        }
        VertexExInfo::SubVersion2(v) => {
            put_i32(&mut b, 2);
            for x in v {
                ex(&mut b, x.bone_ids, x.weights);
                put_u32(&mut b, x.extra);
            }
        }
        VertexExInfo::SubVersion3(v) => {
            put_i32(&mut b, 3);
            for x in v {
                ex(&mut b, x.bone_ids, x.weights);
                put_u32(&mut b, x.extra[0]);
                put_u32(&mut b, x.extra[1]);
            }
        }
    }
    if m.joint_ex_info.sub_version == 0 {
        return b;
    }
    put_i32(&mut b, m.joint_ex_info.sub_version);
    for j in &m.joint_ex_info.joint_ex {
        for x in j.color {
            put_u32(&mut b, x);
        }
    }
    if m.model_ex_info.sub_version == 0 {
        return b;
    }
    put_i32(&mut b, m.model_ex_info.sub_version);
    put_u32(&mut b, m.model_ex_info.model_ex.joint_size);
    put_i32(&mut b, m.model_ex_info.model_ex.transparency_mode);
    put_u32(&mut b, m.model_ex_info.model_ex.alpha_ref);
    b
}

#[test]
fn test_sizes() {
    assert_eq!(HEADER_SIZE, 14);
    assert_eq!(VERTEX_SIZE, 15);
    assert_eq!(TRIANGLE_SIZE, 70);
    assert_eq!(MATERIAL_SIZE, 361);
    assert_eq!(KEY_FRAME_ROT_SIZE, 16);
    assert_eq!(KEY_FRAME_POS_SIZE, 16);
}

#[test]
fn test_slice() {
    let s = sample(1);
    let m = Model::from_bytes(&s.bytes).unwrap();
    assert_eq!(m.header.version, 4);
    assert_eq!(m.vertices.len(), 2);
    assert_eq!(m.vertices[0].flags, Flags { bits: 1 });
    assert_eq!(m.vertices[1].vertex, [1.0f32.to_bits(), 3.0f32.to_bits(), (-3.5f32).to_bits()]);
    assert_eq!(m.vertices[0].vertex[0], 0x3f80_0000);
    assert_eq!(m.vertices[0].bone_id, -1);
    assert_eq!(m.vertices[0].reference_count, 3);
    assert_eq!(m.triangles.len(), 1);
    assert_eq!(m.triangles[0].flags.bits, 2);
    assert_eq!(m.triangles[0].vertex_indices, [0, 1, 2]);
    assert_eq!(m.triangles[0].vertex_normals[2][1], 7.0f32.to_bits());
    assert_eq!(m.triangles[0].t[2], 2.5f32.to_bits());
    assert_eq!(m.triangles[0].smoothing_group, 7);
    assert_eq!(m.groups[0].name, "body");
    assert_eq!(m.groups[0].flags.bits, 2);
    assert_eq!(m.groups[0].triangle_indices, vec![5, 6, 0x1234]);
    assert_eq!(m.groups[0].material_index, -1);
    assert_eq!(m.materials[0].name, "skin");
    assert_eq!(m.materials[0].diffuse[0], 0.25f32.to_bits());
    assert_eq!(m.materials[0].shininess, 8.0f32.to_bits());
    assert_eq!(m.materials[0].mode, 0x80);
    assert_eq!(m.materials[0].texture, "textures/skin.bmp");
    assert_eq!(m.materials[0].alphamap, "");
    assert_eq!(m.key_frame_data.animation_fps, 24.0f32.to_bits());
    assert_eq!(m.key_frame_data.total_frames, 30);
    assert_eq!(m.joints[0].name, "root");
    assert_eq!(m.joints[0].parent_name, "");
    assert_eq!(m.joints[0].flags.bits, 8);
    assert_eq!(m.joints[0].key_frames_rot.len(), 1);
    assert_eq!(m.joints[0].key_frames_trans.len(), 2);
    assert_eq!(m.joints[0].key_frames_trans[1].time, 2.0f32.to_bits());
    assert_eq!(m.comments.sub_version, 1);
    assert_eq!(m.comments.group_comments[0].comment, "group");
    assert!(m.comments.material_comments.is_empty());
    assert_eq!(m.comments.joint_comments[1].index, 1);
    assert_eq!(m.comments.joint_comments[1].comment, "h\u{e9}llo");
    assert_eq!(m.comments.model_comment.as_ref().unwrap().comment, "model");
    match &m.vertex_ex_info {
        VertexExInfo::SubVersion2(v) => {
            assert_eq!(v.len(), 2);
            assert_eq!(v[1].bone_ids, [0, 1, -2]);
            assert_eq!(v[1].weights, [100, 1, 0]);
            assert_eq!(v[1].extra, 0xdead_beef);
        }
        other => panic!("unexpected vertex extension {:?}", other),
    }
    assert_eq!(m.joint_ex_info.sub_version, 1);
    assert_eq!(m.joint_ex_info.joint_ex[0].color, [0.75f32.to_bits(); 3]);
    assert_eq!(m.model_ex_info.sub_version, 1);
    assert_eq!(m.model_ex_info.model_ex.transparency_mode, 2);
    assert_eq!(m.model_ex_info.model_ex.alpha_ref, 0.5f32.to_bits());
}

#[test]
fn round_trip_through_layout() {
    for count in [0, 1] {
        let s = sample(count);
        let m = Model::from_bytes(&s.bytes).unwrap();
        let again = encode(&m);
        // the triangle flags' high byte is not kept
        assert_eq!(again.len(), s.bytes.len());
        assert_eq!(Model::from_bytes(&again).unwrap(), m);
        assert_eq!(encode(&Model::from_bytes(&again).unwrap()), again);
    }
}

#[test]
fn altered_magic_fails() {
    for i in 0..10 {
        let mut s = sample(0);
        s.bytes[i] ^= 0x01;
        assert_eq!(Model::from_bytes(&s.bytes).unwrap_err(), Error::InvalidHeader);
    }
}

#[test]
fn other_version_fails() {
    for v in [0, 3, 5, -4] {
        let mut s = sample(0);
        s.bytes[10..14].copy_from_slice(&(v as i32).to_le_bytes());
        assert_eq!(Model::from_bytes(&s.bytes).unwrap_err(), Error::UnsupportedVersion(v));
    }
}

#[test]
fn short_header_is_truncated() {
    assert_eq!(Model::from_bytes(b"MS3D0000").unwrap_err(), Error::UnexpectedEof);
    assert_eq!(Model::from_bytes(&[]).unwrap_err(), Error::UnexpectedEof);
}

#[test]
fn flags_outside_allowed_set_fail() {
    let mut s = sample(0);
    s.bytes[s.vertex_flags] = DIRTY_BIT;
    assert_eq!(Model::from_bytes(&s.bytes).unwrap_err(), Error::InvalidFlags(8));
    let mut s = sample(0);
    s.bytes[s.group_flags] = 4;
    assert_eq!(Model::from_bytes(&s.bytes).unwrap_err(), Error::InvalidFlags(4));
    let mut s = sample(0);
    s.bytes[s.joint_flags] = 2;
    assert_eq!(Model::from_bytes(&s.bytes).unwrap_err(), Error::InvalidFlags(2));
    let mut s = sample(0);
    s.bytes[s.vertex_flags] = 0x10;
    assert_eq!(Model::from_bytes(&s.bytes).unwrap_err(), Error::InvalidFlags(0x10));
}

const DIRTY_BIT: u8 = 8;

#[test]
fn allowed_flags_are_kept() {
    let mut s = sample(0);
    s.bytes[s.vertex_flags] = 7;
    s.bytes[s.joint_flags] = 9;
    let m = Model::from_bytes(&s.bytes).unwrap();
    assert_eq!(m.vertices[0].flags.bits, 7);
    assert_eq!(m.joints[0].flags.bits, 9);
}

#[test]
fn convert_flags_checks_each_set() {
    for bits in 0..=255u8 {
        let v = convert_flags(bits, Flags { bits: VERTEX_ALLOWED_FLAGS });
        assert_eq!(v.is_ok(), bits & !7 == 0);
        let g = convert_flags(bits, Flags { bits: GROUP_ALLOWED_FLAGS });
        assert_eq!(g.is_ok(), bits & !3 == 0);
        let j = convert_flags(bits, Flags { bits: JOINT_ALLOWED_FLAGS });
        match j {
            Ok(f) => assert_eq!(f.bits, bits),
            Err(e) => assert_eq!(e, Error::InvalidFlags(bits)),
        }
        assert_eq!(j.is_ok(), bits & !9 == 0);
    }
}

#[test]
fn model_comment_counts() {
    let m = Model::from_bytes(&sample(0).bytes).unwrap();
    assert!(m.comments.model_comment.is_none());
    let m = Model::from_bytes(&sample(1).bytes).unwrap();
    assert!(m.comments.model_comment.is_some());
    for n in [2, 3, -1] {
        let mut s = sample(1);
        let at = s.model_comment_count;
        s.bytes[at..at + 4].copy_from_slice(&(n as i32).to_le_bytes());
        assert_eq!(Model::from_bytes(&s.bytes).unwrap_err(), Error::InvalidModelCommentCount(n));
    }
}

#[test]
fn truncated_before_extensions_is_absent() {
    let s = sample(1);
    let m = Model::from_bytes(&s.bytes[..s.vertex_ex]).unwrap();
    assert_eq!(m.vertex_ex_info, VertexExInfo::Absent);
    assert_eq!(m.joint_ex_info.sub_version, 0);
    assert!(m.joint_ex_info.joint_ex.is_empty());
    assert_eq!(m.model_ex_info.sub_version, 0);
    assert_eq!(m.model_ex_info.model_ex.joint_size, 0);
    let m = Model::from_bytes(&s.bytes[..s.joint_ex]).unwrap();
    assert!(matches!(m.vertex_ex_info, VertexExInfo::SubVersion2(_)));
    assert_eq!(m.joint_ex_info.sub_version, 0);
    let m = Model::from_bytes(&s.bytes[..s.model_ex]).unwrap();
    assert_eq!(m.joint_ex_info.sub_version, 1);
    assert_eq!(m.model_ex_info.sub_version, 0);
}

#[test]
fn truncated_anywhere_else_fails() {
    let s = sample(1);
    for k in 0..s.bytes.len() {
        if k == s.vertex_ex || k == s.joint_ex || k == s.model_ex {
            continue;
        }
        assert_eq!(
            Model::from_bytes(&s.bytes[..k]).unwrap_err(),
            Error::UnexpectedEof,
            "cut at {}",
            k
        );
    }
}

#[test]
fn trailing_bytes_are_ignored() {
    let s = sample(1);
    let mut longer = s.bytes.clone();
    longer.extend_from_slice(&[1, 2, 3]);
    assert_eq!(Model::from_bytes(&longer).unwrap(), Model::from_bytes(&s.bytes).unwrap());
}

#[test]
fn name_field_widths() {
    let full = [b'a'; 32];
    assert_eq!(convert_string(&full, 0, 32).unwrap(), "a".repeat(32));
    let mut early = [b'x'; 32];
    early[..5].copy_from_slice(b"ab\0cd");
    assert_eq!(convert_string(&early, 0, 32).unwrap(), "ab");
    assert_eq!(convert_string(&early, 3, 32).unwrap(), "cd".to_string() + &"x".repeat(27));
    assert_eq!(convert_path(b"dir/a.bmp\0zz", 0, 12).unwrap(), "dir/a.bmp");
    assert_eq!(convert_string(&[0, 0xff], 0, 2).unwrap(), "");
    assert_eq!(convert_string(&[b'a', 0xff], 0, 2).unwrap_err(), Error::InvalidUtf8);
}

#[test]
fn sub_version_errors() {
    let mut s = sample(0);
    let at = s.vertex_ex;
    s.bytes[at..at + 4].copy_from_slice(&4i32.to_le_bytes());
    assert_eq!(Model::from_bytes(&s.bytes).unwrap_err(), Error::UnsupportedVertexExSubVersion(4));
    let mut s = sample(0);
    let at = s.joint_ex;
    s.bytes[at..at + 4].copy_from_slice(&2i32.to_le_bytes());
    assert_eq!(Model::from_bytes(&s.bytes).unwrap_err(), Error::UnsupportedJointExSubVersion(2));
    let mut s = sample(0);
    let at = s.model_ex;
    s.bytes[at..at + 4].copy_from_slice(&0i32.to_le_bytes());
    assert_eq!(Model::from_bytes(&s.bytes).unwrap_err(), Error::UnsupportedModelExSubVersion(0));
}

#[test]
fn negative_counts_and_bad_text_fail() {
    // one material comment count of -1 in place of 0
    let s = sample(0);
    let mut b = s.bytes.clone();
    let group_comment_end = s.model_comment_count - 4 - (8 + 9) - (8 + 6) - 4;
    b[group_comment_end..group_comment_end + 4].copy_from_slice(&(-1i32).to_le_bytes());
    assert_eq!(Model::from_bytes(&b).unwrap_err(), Error::InvalidCount(-1));
    // invalid UTF-8 in a comment
    let mut b = s.bytes.clone();
    let text = s.model_comment_count - 6;
    b[text] = 0xc3;
    b[text + 1] = 0x28;
    assert_eq!(Model::from_bytes(&b).unwrap_err(), Error::InvalidUtf8);
}

#[test]
fn slice_reader_hands_out_runs() {
    let data = [1u8, 2, 3, 4, 5];
    let mut r = SliceReader::new(&data);
    assert_eq!(r.buf_read_exact(2), Ok(0));
    assert_eq!(r.u16_at(0), 0x0201);
    assert_eq!(r.buf_read_exact(4), Err(Error::UnexpectedEof));
    assert_eq!(r.buf_read_exact(3), Ok(2));
    assert!(r.at_end());
    let mut rd = Reader::from_slice(&data);
    assert_eq!(rd.read_i32(), Ok(0x0403_0201));
    assert_eq!(rd.read_u16(), Err(Error::UnexpectedEof));
}
