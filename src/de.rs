//! The decoder: reads a file section by section, in file order.

use vstd::prelude::*;

use crate::layout::{
    COMMENT_PREFIX_SIZE, GROUP_PREFIX_SIZE, HEADER_SIZE, JOINT_EX_SIZE, JOINT_PREFIX_SIZE,
    KEY_FRAME_DATA_SIZE, KEY_FRAME_POS_SIZE, KEY_FRAME_ROT_SIZE, MATERIAL_SIZE, MODEL_EX_SIZE,
    TRIANGLE_SIZE, VERTEX_EX_1_SIZE, VERTEX_EX_2_SIZE, VERTEX_EX_3_SIZE, VERTEX_SIZE, comment_at,
    comment_len, comment_list_at, comment_ok, comment_section_at, comment_section_end,
    comment_section_ok, comments_end, comments_ok, field_text, flags_ok, group_at, group_count,
    group_len, group_ok, group_section_at, group_section_end, group_section_ok, groups_end,
    groups_ok, header_ok, i32_le, joint_at, joint_ex_at, joint_ex_end, joint_ex_info_at,
    joint_ex_ok, joint_len, joint_ok, joint_pos_count, joint_rot_count, joint_section_at,
    joint_section_end, joint_section_ok, joints_end, joints_ok, key_frame_data_at, key_frame_pos_at,
    key_frame_rot_at, lemma_cstr_stop, lemma_run_ok_prefix, magic, material_at,
    material_comments_pos, material_ok, materials_at, materials_end, materials_ok, model_at,
    model_ex_at, model_ex_info_at, model_ex_ok, model_ok, signed_list_end, signed_list_ok,
    triangle_at, triangle_ok, triangles_at, triangles_end, triangles_ok, u16_le, u32_le, utf8_text,
    vertex_at, vertex_ex_1_at, vertex_ex_2_at, vertex_ex_3_at, vertex_ex_end, vertex_ex_info_at,
    vertex_ex_ok, vertex_ok, vertices_at, vertices_end, vertices_ok,
};
use crate::model::{
    Comments, JointExInfo, Model, ModelExInfo, VertexExInfo,
    Comment, Group, Joint, JointEx, ModelEx, VertexEx1, VertexEx2, VertexEx3, GROUP_ALLOWED_FLAGS,
    JOINT_ALLOWED_FLAGS, Error, Flags, Header, KeyFrameData, KeyFramePos, KeyFrameRot, Material, Triangle, Vertex,
    TRIANGLE_ALLOWED_FLAGS, VERTEX_ALLOWED_FLAGS,
};
use crate::read::{first_nul, utf8_string, SliceReader};

verus! {

/// Decodes the fixed-width field `b[start..end]`: the bytes before its first
/// zero byte, or all of them when it has none, as UTF-8.
pub fn convert_string(b: &[u8], start: usize, end: usize) -> (r: Result<String, Error>)
    requires
        start <= end <= b@.len(),
    ensures
        r is Ok <==> field_text(b@, start as int, end - start) is Some,
        r matches Ok(s) ==> s@ == field_text(b@, start as int, end - start).unwrap(),
        r matches Err(e) ==> e == Error::InvalidUtf8,
{
    let ghost field = b@.subrange(start as int, end as int);
    let stop = match first_nul(b, start, end) {
        Some(i) => start + i,
        None => end,
    };
    proof {
        lemma_cstr_stop(field, stop - start);
        assert(field.subrange(0, stop - start) =~= b@.subrange(start as int, stop as int));
    }
    match utf8_string(b, start, stop) {
        Some(s) => Ok(s),
        None => Err(Error::InvalidUtf8),
    }
}

/// Decodes a fixed-width path field, by the same rule as `convert_string`.
pub fn convert_path(b: &[u8], start: usize, end: usize) -> (r: Result<String, Error>)
    requires
        start <= end <= b@.len(),
    ensures
        r is Ok <==> field_text(b@, start as int, end - start) is Some,
        r matches Ok(s) ==> s@ == field_text(b@, start as int, end - start).unwrap(),
        r matches Err(e) ==> e == Error::InvalidUtf8,
{
    convert_string(b, start, end)
}

/// Accepts a flags byte that names only flags, all of them in `allowed`.
pub fn convert_flags(bits: u8, allowed: Flags) -> (r: Result<Flags, Error>)
    ensures
        r is Ok <==> flags_ok(bits, allowed.bits),
        r matches Ok(f) ==> f.bits == bits,
        r matches Err(e) ==> e == Error::InvalidFlags(bits),
{
    if let Some(flags) = Flags::from_bits(bits) {
        if allowed.contains(flags) {
            return Ok(flags);
        }
    }
    Err(Error::InvalidFlags(bits))
}

/// The `i`-th byte of the file identifier.
fn magic_byte(i: usize) -> (r: u8)
    requires
        i < 10,
    ensures
        r == magic()[i as int],
{
    if i == 0 {
        0x4d
    } else if i == 1 {
        0x53
    } else if i == 2 {
        0x33
    } else if i == 3 {
        0x44
    } else {
        0x30
    }
}

/// The decoding session: walks the source once, section by section.
pub struct Reader<'a> {
    pub rdr: SliceReader<'a>,
}

impl<'a> Reader<'a> {
    pub open spec fn data(&self) -> Seq<u8> {
        self.rdr.data()
    }

    pub open spec fn pos(&self) -> int {
        self.rdr.pos as int
    }

    pub open spec fn wf(&self) -> bool {
        self.rdr.wf()
    }

    pub fn from_slice(slice: &'a [u8]) -> (r: Self)
        ensures
            r.wf(),
            r.data() == slice@,
            r.pos() == 0,
    {
        Reader { rdr: SliceReader::new(slice) }
    }

    /// Whether the ten bytes at `p` are the file identifier.
    fn magic_at(&self, p: usize) -> (r: bool)
        requires
            p + 10 <= self.data().len(),
        ensures
            r == (self.data().subrange(p as int, p + 10) == magic()),
    {
        let ghost sub = self.data().subrange(p as int, p + 10);
        let mut i: usize = 0;
        while i < 10
            invariant
                i <= 10,
                p + 10 <= self.data().len(),
                self.data().len() == self.rdr.slice.len(),
                sub == self.data().subrange(p as int, p + 10),
                forall|j: int| 0 <= j < i ==> sub[j] == magic()[j],
            decreases 10 - i,
        {
            if self.rdr.byte_at(p + i) != magic_byte(i) {
                assert(sub[i as int] != magic()[i as int]);
                return false;
            }
            i = i + 1;
        }
        assert(sub =~= magic());
        true
    }

    pub fn read_header(&mut self) -> (r: Result<Header, Error>)
        requires
            old(self).wf(),
        ensures
            final(self).wf(),
            final(self).data() == old(self).data(),
            r is Ok <==> header_ok(old(self).data().subrange(old(self).pos(), old(self).data().len() as int)),
            r matches Ok(h) ==> h.version == 4 && final(self).pos() == old(self).pos() + 14,
            r matches Err(e) ==> {
                let d = old(self).data();
                let p = old(self).pos();
                if p + 14 > d.len() {
                    e == Error::UnexpectedEof
                } else if d.subrange(p, p + 10) != magic() {
                    e == Error::InvalidHeader
                } else {
                    e == Error::UnsupportedVersion(i32_le(d, p + 10) as i32)
                }
            },
    {
        let ghost d = self.data();
        let ghost rest = d.subrange(self.pos(), d.len() as int);
        let p = match self.rdr.buf_read_exact(HEADER_SIZE) {
            Ok(p) => p,
            Err(e) => return Err(e),
        };
        assert(rest.subrange(0, 10) =~= d.subrange(p as int, p + 10));
        assert(i32_le(rest, 10) == i32_le(d, p + 10));
        if !self.magic_at(p) {
            return Err(Error::InvalidHeader);
        }
        let version = self.rdr.i32_at(p + 10);
        if version != 4 {
            return Err(Error::UnsupportedVersion(version));
        }
        Ok(Header { version })
    }

    pub fn read_vertex(&mut self) -> (r: Result<Vertex, Error>)
        requires
            old(self).wf(),
        ensures
            final(self).wf(),
            final(self).data() == old(self).data(),
            r is Ok <==> vertex_ok(old(self).data(), old(self).pos()),
            r matches Ok(v) ==> vertex_at(old(self).data(), old(self).pos(), v)
                && final(self).pos() == old(self).pos() + 15,
            r matches Err(e) ==> if old(self).pos() + 15 > old(self).data().len() {
                e == Error::UnexpectedEof
            } else {
                e == Error::InvalidFlags(old(self).data()[old(self).pos()])
            },
    {
        let p = match self.rdr.buf_read_exact(VERTEX_SIZE) {
            Ok(p) => p,
            Err(e) => return Err(e),
        };
        let flags = match convert_flags(self.rdr.byte_at(p), Flags { bits: VERTEX_ALLOWED_FLAGS }) {
            Ok(f) => f,
            Err(e) => return Err(e),
        };
        Ok(Vertex {
            flags,
            vertex: self.rdr.u32x3_at(p + 1),
            bone_id: self.rdr.i8_at(p + 13),
            reference_count: self.rdr.byte_at(p + 14),
        })
    }

    pub fn read_triangle(&mut self) -> (r: Result<Triangle, Error>)
        requires
            old(self).wf(),
        ensures
            final(self).wf(),
            final(self).data() == old(self).data(),
            r is Ok <==> triangle_ok(old(self).data(), old(self).pos()),
            r matches Ok(t) ==> triangle_at(old(self).data(), old(self).pos(), t)
                && final(self).pos() == old(self).pos() + 70,
            r matches Err(e) ==> if old(self).pos() + 70 > old(self).data().len() {
                e == Error::UnexpectedEof
            } else {
                e == Error::InvalidFlags(old(self).data()[old(self).pos()])
            },
    {
        let p = match self.rdr.buf_read_exact(TRIANGLE_SIZE) {
            Ok(p) => p,
            Err(e) => return Err(e),
        };
        // the 16-bit flags field carries its flags in the low byte
        let flags = match convert_flags(self.rdr.byte_at(p), Flags { bits: TRIANGLE_ALLOWED_FLAGS }) {
            Ok(f) => f,
            Err(e) => return Err(e),
        };
        let vertex_normals = [
            self.rdr.u32x3_at(p + 8),
            self.rdr.u32x3_at(p + 20),
            self.rdr.u32x3_at(p + 32),
        ];
        assert(vertex_normals@.len() == 3);
        Ok(Triangle {
            flags,
            vertex_indices: self.rdr.u16x3_at(p + 2),
            vertex_normals,
            s: self.rdr.u32x3_at(p + 44),
            t: self.rdr.u32x3_at(p + 56),
            smoothing_group: self.rdr.byte_at(p + 68),
            group_index: self.rdr.byte_at(p + 69),
        })
    }

    pub fn read_material(&mut self) -> (r: Result<Material, Error>)
        requires
            old(self).wf(),
        ensures
            final(self).wf(),
            final(self).data() == old(self).data(),
            r is Ok <==> material_ok(old(self).data(), old(self).pos()),
            r matches Ok(m) ==> material_at(old(self).data(), old(self).pos(), m)
                && final(self).pos() == old(self).pos() + 361,
    {
        let p = match self.rdr.buf_read_exact(MATERIAL_SIZE) {
            Ok(p) => p,
            Err(e) => return Err(e),
        };
        let name = match convert_string(self.rdr.slice, p, p + 32) {
            Ok(s) => s,
            Err(e) => return Err(e),
        };
        let texture = match convert_path(self.rdr.slice, p + 105, p + 233) {
            Ok(s) => s,
            Err(e) => return Err(e),
        };
        let alphamap = match convert_path(self.rdr.slice, p + 233, p + 361) {
            Ok(s) => s,
            Err(e) => return Err(e),
        };
        Ok(Material {
            name,
            ambient: self.rdr.u32x4_at(p + 32),
            diffuse: self.rdr.u32x4_at(p + 48),
            specular: self.rdr.u32x4_at(p + 64),
            emissive: self.rdr.u32x4_at(p + 80),
            shininess: self.rdr.u32_at(p + 96),
            transparency: self.rdr.u32_at(p + 100),
            mode: self.rdr.byte_at(p + 104),
            texture,
            alphamap,
        })
    }

    pub fn read_key_frame_data(&mut self) -> (r: Result<KeyFrameData, Error>)
        requires
            old(self).wf(),
        ensures
            final(self).wf(),
            final(self).data() == old(self).data(),
            r is Ok <==> old(self).pos() + 12 <= old(self).data().len(),
            r matches Ok(k) ==> key_frame_data_at(old(self).data(), old(self).pos(), k)
                && final(self).pos() == old(self).pos() + 12,
            r matches Err(e) ==> e == Error::UnexpectedEof,
    {
        let p = match self.rdr.buf_read_exact(KEY_FRAME_DATA_SIZE) {
            Ok(p) => p,
            Err(e) => return Err(e),
        };
        Ok(KeyFrameData {
            animation_fps: self.rdr.u32_at(p),
            current_time: self.rdr.u32_at(p + 4),
            total_frames: self.rdr.i32_at(p + 8),
        })
    }

    pub fn read_key_frame_rot(&mut self) -> (r: Result<KeyFrameRot, Error>)
        requires
            old(self).wf(),
        ensures
            final(self).wf(),
            final(self).data() == old(self).data(),
            r is Ok <==> old(self).pos() + 16 <= old(self).data().len(),
            r matches Ok(k) ==> key_frame_rot_at(old(self).data(), old(self).pos(), k)
                && final(self).pos() == old(self).pos() + 16,
            r matches Err(e) ==> e == Error::UnexpectedEof,
    {
        let p = match self.rdr.buf_read_exact(KEY_FRAME_ROT_SIZE) {
            Ok(p) => p,
            Err(e) => return Err(e),
        };
        Ok(KeyFrameRot { time: self.rdr.u32_at(p), rotation: self.rdr.u32x3_at(p + 4) })
    }

    pub fn read_key_frame_pos(&mut self) -> (r: Result<KeyFramePos, Error>)
        requires
            old(self).wf(),
        ensures
            final(self).wf(),
            final(self).data() == old(self).data(),
            r is Ok <==> old(self).pos() + 16 <= old(self).data().len(),
            r matches Ok(k) ==> key_frame_pos_at(old(self).data(), old(self).pos(), k)
                && final(self).pos() == old(self).pos() + 16,
            r matches Err(e) ==> e == Error::UnexpectedEof,
    {
        let p = match self.rdr.buf_read_exact(KEY_FRAME_POS_SIZE) {
            Ok(p) => p,
            Err(e) => return Err(e),
        };
        Ok(KeyFramePos { time: self.rdr.u32_at(p), position: self.rdr.u32x3_at(p + 4) })
    }

    pub fn read_u16(&mut self) -> (r: Result<u16, Error>)
        requires
            old(self).wf(),
        ensures
            final(self).wf(),
            final(self).data() == old(self).data(),
            r is Ok <==> old(self).pos() + 2 <= old(self).data().len(),
            r matches Ok(x) ==> x == u16_le(old(self).data(), old(self).pos())
                && final(self).pos() == old(self).pos() + 2,
            r matches Err(e) ==> e == Error::UnexpectedEof,
    {
        let p = match self.rdr.buf_read_exact(2) {
            Ok(p) => p,
            Err(e) => return Err(e),
        };
        Ok(self.rdr.u16_at(p))
    }

    pub fn read_u32(&mut self) -> (r: Result<u32, Error>)
        requires
            old(self).wf(),
        ensures
            final(self).wf(),
            final(self).data() == old(self).data(),
            r is Ok <==> old(self).pos() + 4 <= old(self).data().len(),
            r matches Ok(x) ==> x == u32_le(old(self).data(), old(self).pos())
                && final(self).pos() == old(self).pos() + 4,
            r matches Err(e) ==> e == Error::UnexpectedEof,
    {
        let p = match self.rdr.buf_read_exact(4) {
            Ok(p) => p,
            Err(e) => return Err(e),
        };
        Ok(self.rdr.u32_at(p))
    }

    pub fn read_i32(&mut self) -> (r: Result<i32, Error>)
        requires
            old(self).wf(),
        ensures
            final(self).wf(),
            final(self).data() == old(self).data(),
            r is Ok <==> old(self).pos() + 4 <= old(self).data().len(),
            r matches Ok(x) ==> x == i32_le(old(self).data(), old(self).pos())
                && final(self).pos() == old(self).pos() + 4,
            r is Err ==> final(self).pos() == old(self).pos(),
            r matches Err(e) ==> e == Error::UnexpectedEof,
    {
        let p = match self.rdr.buf_read_exact(4) {
            Ok(p) => p,
            Err(e) => return Err(e),
        };
        Ok(self.rdr.i32_at(p))
    }

    /// Reads `len` bytes as UTF-8 text.
    pub fn read_string(&mut self, len: usize) -> (r: Result<String, Error>)
        requires
            old(self).wf(),
        ensures
            final(self).wf(),
            final(self).data() == old(self).data(),
            r is Ok <==> old(self).pos() + len <= old(self).data().len() && utf8_text(
                old(self).data().subrange(old(self).pos(), old(self).pos() + len),
            ) is Some,
            r matches Ok(s) ==> s@ == utf8_text(
                old(self).data().subrange(old(self).pos(), old(self).pos() + len),
            ).unwrap() && final(self).pos() == old(self).pos() + len,
    {
        let p = match self.rdr.buf_read_exact(len) {
            Ok(p) => p,
            Err(e) => return Err(e),
        };
        match utf8_string(self.rdr.slice, p, p + len) {
            Some(s) => Ok(s),
            None => Err(Error::InvalidUtf8),
        }
    }

    pub fn read_group(&mut self) -> (r: Result<Group, Error>)
        requires
            old(self).wf(),
        ensures
            final(self).wf(),
            final(self).data() == old(self).data(),
            r is Ok <==> group_ok(old(self).data(), old(self).pos()),
            r matches Ok(g) ==> group_at(old(self).data(), old(self).pos(), g)
                && final(self).pos() == old(self).pos() + group_len(old(self).data(), old(self).pos()),
    {
        let ghost d = self.data();
        let p = match self.rdr.buf_read_exact(GROUP_PREFIX_SIZE) {
            Ok(p) => p,
            Err(e) => return Err(e),
        };
        let flags = match convert_flags(self.rdr.byte_at(p), Flags { bits: GROUP_ALLOWED_FLAGS }) {
            Ok(f) => f,
            Err(e) => return Err(e),
        };
        let name = match convert_string(self.rdr.slice, p + 1, p + 33) {
            Ok(s) => s,
            Err(e) => return Err(e),
        };
        let num_triangles = self.rdr.u16_at(p + 33);
        let mut triangle_indices: Vec<u16> = Vec::new();
        let mut i: usize = 0;
        while i < num_triangles as usize
            invariant
                self.wf(),
                self.data() == d,
                p + 35 <= d.len(),
                num_triangles == group_count(d, p as int),
                d == old(self).data(),
                p == old(self).pos(),
                flags_ok(d[p as int], GROUP_ALLOWED_FLAGS),
                field_text(d, p + 1, 32) is Some,
                i <= num_triangles,
                self.pos() == p + 35 + 2 * i,
                triangle_indices@.len() == i,
                forall|j: int|
                    0 <= j < i ==> #[trigger] triangle_indices@[j] == u16_le(d, p + 35 + 2 * j),
            decreases num_triangles - i,
        {
            match self.read_u16() {
                Ok(x) => triangle_indices.push(x),
                Err(e) => return Err(e),
            }
            i = i + 1;
        }
        let q = match self.rdr.buf_read_exact(1) {
            Ok(q) => q,
            Err(e) => return Err(e),
        };
        let material_index = self.rdr.i8_at(q);
        Ok(Group { flags, name, triangle_indices, material_index })
    }

    pub fn read_joint(&mut self) -> (r: Result<Joint, Error>)
        requires
            old(self).wf(),
        ensures
            final(self).wf(),
            final(self).data() == old(self).data(),
            r is Ok <==> joint_ok(old(self).data(), old(self).pos()),
            r matches Ok(j) ==> joint_at(old(self).data(), old(self).pos(), j)
                && final(self).pos() == old(self).pos() + joint_len(old(self).data(), old(self).pos()),
    {
        let ghost d = self.data();
        let p = match self.rdr.buf_read_exact(JOINT_PREFIX_SIZE) {
            Ok(p) => p,
            Err(e) => return Err(e),
        };
        let flags = match convert_flags(self.rdr.byte_at(p), Flags { bits: JOINT_ALLOWED_FLAGS }) {
            Ok(f) => f,
            Err(e) => return Err(e),
        };
        let name = match convert_string(self.rdr.slice, p + 1, p + 33) {
            Ok(s) => s,
            Err(e) => return Err(e),
        };
        let parent_name = match convert_string(self.rdr.slice, p + 33, p + 65) {
            Ok(s) => s,
            Err(e) => return Err(e),
        };
        let rotation = self.rdr.u32x3_at(p + 65);
        let position = self.rdr.u32x3_at(p + 77);
        let num_rot = self.rdr.u16_at(p + 89);
        let num_trans = self.rdr.u16_at(p + 91);
        let mut key_frames_rot: Vec<KeyFrameRot> = Vec::new();
        let mut i: usize = 0;
        while i < num_rot as usize
            invariant
                self.wf(),
                self.data() == d,
                p + 93 <= d.len(),
                num_rot == joint_rot_count(d, p as int),
                d == old(self).data(),
                p == old(self).pos(),
                flags_ok(d[p as int], JOINT_ALLOWED_FLAGS),
                field_text(d, p + 1, 32) is Some,
                field_text(d, p + 33, 32) is Some,
                i <= num_rot,
                self.pos() == p + 93 + 16 * i,
                key_frames_rot@.len() == i,
                forall|j: int|
                    0 <= j < i ==> key_frame_rot_at(d, p + 93 + 16 * j, #[trigger] key_frames_rot@[j]),
            decreases num_rot - i,
        {
            match self.read_key_frame_rot() {
                Ok(k) => key_frames_rot.push(k),
                Err(e) => return Err(e),
            }
            i = i + 1;
        }
        let mut key_frames_trans: Vec<KeyFramePos> = Vec::new();
        let mut i: usize = 0;
        while i < num_trans as usize
            invariant
                self.wf(),
                self.data() == d,
                p + 93 <= d.len(),
                num_rot == joint_rot_count(d, p as int),
                d == old(self).data(),
                p == old(self).pos(),
                flags_ok(d[p as int], JOINT_ALLOWED_FLAGS),
                field_text(d, p + 1, 32) is Some,
                field_text(d, p + 33, 32) is Some,
                num_trans == joint_pos_count(d, p as int),
                i <= num_trans,
                self.pos() == p + 93 + 16 * num_rot + 16 * i,
                key_frames_trans@.len() == i,
                forall|j: int|
                    0 <= j < i ==> key_frame_pos_at(
                        d,
                        p + 93 + 16 * num_rot + 16 * j,
                        #[trigger] key_frames_trans@[j],
                    ),
            decreases num_trans - i,
        {
            match self.read_key_frame_pos() {
                Ok(k) => key_frames_trans.push(k),
                Err(e) => return Err(e),
            }
            i = i + 1;
        }
        Ok(Joint {
            flags,
            name,
            parent_name,
            rotation,
            position,
            key_frames_rot,
            key_frames_trans,
        })
    }

    pub fn read_comment(&mut self) -> (r: Result<Comment, Error>)
        requires
            old(self).wf(),
        ensures
            final(self).wf(),
            final(self).data() == old(self).data(),
            r is Ok <==> comment_ok(old(self).data(), old(self).pos()),
            r matches Ok(c) ==> comment_at(old(self).data(), old(self).pos(), c)
                && final(self).pos() == old(self).pos() + comment_len(old(self).data(), old(self).pos()),
    {
        let p = match self.rdr.buf_read_exact(COMMENT_PREFIX_SIZE) {
            Ok(p) => p,
            Err(e) => return Err(e),
        };
        let index = self.rdr.i32_at(p);
        let comment_length = self.rdr.i32_at(p + 4);
        if comment_length < 0 {
            return Err(Error::InvalidCount(comment_length));
        }
        let comment = match self.read_string(comment_length as usize) {
            Ok(s) => s,
            Err(e) => return Err(e),
        };
        Ok(Comment { index, comment })
    }

    pub fn read_vertex_ex_1(&mut self) -> (r: Result<VertexEx1, Error>)
        requires
            old(self).wf(),
        ensures
            final(self).wf(),
            final(self).data() == old(self).data(),
            r is Ok <==> old(self).pos() + 6 <= old(self).data().len(),
            r matches Ok(v) ==> vertex_ex_1_at(old(self).data(), old(self).pos(), v)
                && final(self).pos() == old(self).pos() + 6,
            r matches Err(e) ==> e == Error::UnexpectedEof,
    {
        let p = match self.rdr.buf_read_exact(VERTEX_EX_1_SIZE) {
            Ok(p) => p,
            Err(e) => return Err(e),
        };
        Ok(VertexEx1 { bone_ids: self.rdr.i8x3_at(p), weights: self.rdr.u8x3_at(p + 3) })
    }

    pub fn read_vertex_ex_2(&mut self) -> (r: Result<VertexEx2, Error>)
        requires
            old(self).wf(),
        ensures
            final(self).wf(),
            final(self).data() == old(self).data(),
            r is Ok <==> old(self).pos() + 10 <= old(self).data().len(),
            r matches Ok(v) ==> vertex_ex_2_at(old(self).data(), old(self).pos(), v)
                && final(self).pos() == old(self).pos() + 10,
            r matches Err(e) ==> e == Error::UnexpectedEof,
    {
        let p = match self.rdr.buf_read_exact(VERTEX_EX_2_SIZE) {
            Ok(p) => p,
            Err(e) => return Err(e),
        };
        Ok(VertexEx2 {
            bone_ids: self.rdr.i8x3_at(p),
            weights: self.rdr.u8x3_at(p + 3),
            extra: self.rdr.u32_at(p + 6),
        })
    }

    pub fn read_vertex_ex_3(&mut self) -> (r: Result<VertexEx3, Error>)
        requires
            old(self).wf(),
        ensures
            final(self).wf(),
            final(self).data() == old(self).data(),
            r is Ok <==> old(self).pos() + 14 <= old(self).data().len(),
            r matches Ok(v) ==> vertex_ex_3_at(old(self).data(), old(self).pos(), v)
                && final(self).pos() == old(self).pos() + 14,
            r matches Err(e) ==> e == Error::UnexpectedEof,
    {
        let p = match self.rdr.buf_read_exact(VERTEX_EX_3_SIZE) {
            Ok(p) => p,
            Err(e) => return Err(e),
        };
        Ok(VertexEx3 {
            bone_ids: self.rdr.i8x3_at(p),
            weights: self.rdr.u8x3_at(p + 3),
            extra: self.rdr.u32x2_at(p + 6),
        })
    }

    pub fn read_joint_ex(&mut self) -> (r: Result<JointEx, Error>)
        requires
            old(self).wf(),
        ensures
            final(self).wf(),
            final(self).data() == old(self).data(),
            r is Ok <==> old(self).pos() + 12 <= old(self).data().len(),
            r matches Ok(j) ==> joint_ex_at(old(self).data(), old(self).pos(), j)
                && final(self).pos() == old(self).pos() + 12,
            r matches Err(e) ==> e == Error::UnexpectedEof,
    {
        let p = match self.rdr.buf_read_exact(JOINT_EX_SIZE) {
            Ok(p) => p,
            Err(e) => return Err(e),
        };
        Ok(JointEx { color: self.rdr.u32x3_at(p) })
    }

    pub fn read_model_ex(&mut self) -> (r: Result<ModelEx, Error>)
        requires
            old(self).wf(),
        ensures
            final(self).wf(),
            final(self).data() == old(self).data(),
            r is Ok <==> old(self).pos() + 12 <= old(self).data().len(),
            r matches Ok(m) ==> model_ex_at(old(self).data(), old(self).pos(), m)
                && final(self).pos() == old(self).pos() + 12,
            r matches Err(e) ==> e == Error::UnexpectedEof,
    {
        let p = match self.rdr.buf_read_exact(MODEL_EX_SIZE) {
            Ok(p) => p,
            Err(e) => return Err(e),
        };
        Ok(ModelEx {
            joint_size: self.rdr.u32_at(p),
            transparency_mode: self.rdr.i32_at(p + 4),
            alpha_ref: self.rdr.u32_at(p + 8),
        })
    }

    pub fn read_vertices(&mut self) -> (r: Result<Vec<Vertex>, Error>)
        requires
            old(self).wf(),
        ensures
            final(self).wf(),
            final(self).data() == old(self).data(),
            r is Ok <==> vertices_ok(old(self).data(), old(self).pos()),
            r matches Ok(v) ==> vertices_at(old(self).data(), old(self).pos(), v@)
                && final(self).pos() == vertices_end(old(self).data(), old(self).pos()),
    {
        let ghost d = self.data();
        let ghost p = self.pos();
        let len = match self.read_u16() {
            Ok(n) => n as usize,
            Err(e) => return Err(e),
        };
        let mut v: Vec<Vertex> = Vec::new();
        let mut i: usize = 0;
        while i < len
            invariant
                self.wf(),
                self.data() == d,
                d == old(self).data(),
                p == old(self).pos(),
                p + 2 <= d.len(),
                len == u16_le(d, p),
                i <= len,
                self.pos() == p + 2 + 15 * i,
                v@.len() == i,
                forall|j: int| 0 <= j < i ==> #[trigger] vertex_ok(d, p + 2 + 15 * j),
                forall|j: int| 0 <= j < i ==> vertex_at(d, p + 2 + 15 * j, #[trigger] v@[j]),
            decreases len - i,
        {
            match self.read_vertex() {
                Ok(x) => v.push(x),
                Err(e) => return Err(e),
            }
            i = i + 1;
        }
        Ok(v)
    }

    pub fn read_triangles(&mut self) -> (r: Result<Vec<Triangle>, Error>)
        requires
            old(self).wf(),
        ensures
            final(self).wf(),
            final(self).data() == old(self).data(),
            r is Ok <==> triangles_ok(old(self).data(), old(self).pos()),
            r matches Ok(v) ==> triangles_at(old(self).data(), old(self).pos(), v@)
                && final(self).pos() == triangles_end(old(self).data(), old(self).pos()),
    {
        let ghost d = self.data();
        let ghost p = self.pos();
        let len = match self.read_u16() {
            Ok(n) => n as usize,
            Err(e) => return Err(e),
        };
        let mut v: Vec<Triangle> = Vec::new();
        let mut i: usize = 0;
        while i < len
            invariant
                self.wf(),
                self.data() == d,
                d == old(self).data(),
                p == old(self).pos(),
                p + 2 <= d.len(),
                len == u16_le(d, p),
                i <= len,
                self.pos() == p + 2 + 70 * i,
                v@.len() == i,
                forall|j: int| 0 <= j < i ==> #[trigger] triangle_ok(d, p + 2 + 70 * j),
                forall|j: int| 0 <= j < i ==> triangle_at(d, p + 2 + 70 * j, #[trigger] v@[j]),
            decreases len - i,
        {
            match self.read_triangle() {
                Ok(x) => v.push(x),
                Err(e) => return Err(e),
            }
            i = i + 1;
        }
        Ok(v)
    }

    pub fn read_materials(&mut self) -> (r: Result<Vec<Material>, Error>)
        requires
            old(self).wf(),
        ensures
            final(self).wf(),
            final(self).data() == old(self).data(),
            r is Ok <==> materials_ok(old(self).data(), old(self).pos()),
            r matches Ok(v) ==> materials_at(old(self).data(), old(self).pos(), v@)
                && final(self).pos() == materials_end(old(self).data(), old(self).pos()),
    {
        let ghost d = self.data();
        let ghost p = self.pos();
        let len = match self.read_u16() {
            Ok(n) => n as usize,
            Err(e) => return Err(e),
        };
        let mut v: Vec<Material> = Vec::new();
        let mut i: usize = 0;
        while i < len
            invariant
                self.wf(),
                self.data() == d,
                d == old(self).data(),
                p == old(self).pos(),
                p + 2 <= d.len(),
                len == u16_le(d, p),
                i <= len,
                self.pos() == p + 2 + 361 * i,
                v@.len() == i,
                forall|j: int| 0 <= j < i ==> #[trigger] material_ok(d, p + 2 + 361 * j),
                forall|j: int| 0 <= j < i ==> material_at(d, p + 2 + 361 * j, #[trigger] v@[j]),
            decreases len - i,
        {
            match self.read_material() {
                Ok(x) => v.push(x),
                Err(e) => return Err(e),
            }
            i = i + 1;
        }
        Ok(v)
    }

    pub fn read_groups(&mut self) -> (r: Result<Vec<Group>, Error>)
        requires
            old(self).wf(),
        ensures
            final(self).wf(),
            final(self).data() == old(self).data(),
            r is Ok <==> group_section_ok(old(self).data(), old(self).pos()),
            r matches Ok(v) ==> group_section_at(old(self).data(), old(self).pos(), v@)
                && final(self).pos() == group_section_end(old(self).data(), old(self).pos()),
    {
        let ghost d = self.data();
        let ghost p = self.pos();
        let len = match self.read_u16() {
            Ok(n) => n as usize,
            Err(e) => return Err(e),
        };
        let mut v: Vec<Group> = Vec::new();
        let mut i: usize = 0;
        while i < len
            invariant
                self.wf(),
                self.data() == d,
                d == old(self).data(),
                p == old(self).pos(),
                p + 2 <= d.len(),
                len == u16_le(d, p),
                i <= len,
                self.pos() == groups_end(d, p + 2, i as nat),
                v@.len() == i,
                groups_ok(d, p + 2, i as nat),
                forall|j: int|
                    0 <= j < i ==> group_at(d, groups_end(d, p + 2, j as nat), #[trigger] v@[j]),
            decreases len - i,
        {
            match self.read_group() {
                Ok(x) => v.push(x),
                Err(e) => {
                    proof {
                        if groups_ok(d, p + 2, len as nat) {
                            lemma_run_ok_prefix(
                                d,
                                p + 2,
                                len as nat,
                                (i + 1) as nat,
                                |d: Seq<u8>, q: int| group_ok(d, q),
                                |d: Seq<u8>, q: int| group_len(d, q),
                            );
                        }
                    }
                    return Err(e);
                },
            }
            i = i + 1;
        }
        Ok(v)
    }

    pub fn read_joints(&mut self) -> (r: Result<Vec<Joint>, Error>)
        requires
            old(self).wf(),
        ensures
            final(self).wf(),
            final(self).data() == old(self).data(),
            r is Ok <==> joint_section_ok(old(self).data(), old(self).pos()),
            r matches Ok(v) ==> joint_section_at(old(self).data(), old(self).pos(), v@)
                && final(self).pos() == joint_section_end(old(self).data(), old(self).pos()),
    {
        let ghost d = self.data();
        let ghost p = self.pos();
        let len = match self.read_u16() {
            Ok(n) => n as usize,
            Err(e) => return Err(e),
        };
        let mut v: Vec<Joint> = Vec::new();
        let mut i: usize = 0;
        while i < len
            invariant
                self.wf(),
                self.data() == d,
                d == old(self).data(),
                p == old(self).pos(),
                p + 2 <= d.len(),
                len == u16_le(d, p),
                i <= len,
                self.pos() == joints_end(d, p + 2, i as nat),
                v@.len() == i,
                joints_ok(d, p + 2, i as nat),
                forall|j: int|
                    0 <= j < i ==> joint_at(d, joints_end(d, p + 2, j as nat), #[trigger] v@[j]),
            decreases len - i,
        {
            match self.read_joint() {
                Ok(x) => v.push(x),
                Err(e) => {
                    proof {
                        if joints_ok(d, p + 2, len as nat) {
                            lemma_run_ok_prefix(
                                d,
                                p + 2,
                                len as nat,
                                (i + 1) as nat,
                                |d: Seq<u8>, q: int| joint_ok(d, q),
                                |d: Seq<u8>, q: int| joint_len(d, q),
                            );
                        }
                    }
                    return Err(e);
                },
            }
            i = i + 1;
        }
        Ok(v)
    }

    /// Reads `len` consecutive comments.
    pub fn read_comment_list(&mut self, len: usize) -> (r: Result<Vec<Comment>, Error>)
        requires
            old(self).wf(),
        ensures
            final(self).wf(),
            final(self).data() == old(self).data(),
            r is Ok <==> comments_ok(old(self).data(), old(self).pos(), len as nat),
            r matches Ok(v) ==> comment_list_at(old(self).data(), old(self).pos(), len as nat, v@)
                && final(self).pos() == comments_end(old(self).data(), old(self).pos(), len as nat),
    {
        let ghost d = self.data();
        let ghost p = self.pos();
        let mut v: Vec<Comment> = Vec::new();
        let mut i: usize = 0;
        while i < len
            invariant
                self.wf(),
                self.data() == d,
                d == old(self).data(),
                p == old(self).pos(),
                i <= len,
                self.pos() == comments_end(d, p, i as nat),
                v@.len() == i,
                comments_ok(d, p, i as nat),
                forall|j: int|
                    0 <= j < i ==> comment_at(d, comments_end(d, p, j as nat), #[trigger] v@[j]),
            decreases len - i,
        {
            match self.read_comment() {
                Ok(x) => v.push(x),
                Err(e) => {
                    proof {
                        if comments_ok(d, p, len as nat) {
                            lemma_run_ok_prefix(
                                d,
                                p,
                                len as nat,
                                (i + 1) as nat,
                                |d: Seq<u8>, q: int| comment_ok(d, q),
                                |d: Seq<u8>, q: int| comment_len(d, q),
                            );
                        }
                    }
                    return Err(e);
                },
            }
            i = i + 1;
        }
        Ok(v)
    }

    /// Reads a comment list whose count is a signed 32-bit field; a negative
    /// count is refused.
    pub fn read_signed_comment_list(&mut self) -> (r: Result<Vec<Comment>, Error>)
        requires
            old(self).wf(),
        ensures
            final(self).wf(),
            final(self).data() == old(self).data(),
            r is Ok <==> signed_list_ok(old(self).data(), old(self).pos()),
            r matches Ok(v) ==> comment_list_at(
                old(self).data(),
                old(self).pos() + 4,
                i32_le(old(self).data(), old(self).pos()) as nat,
                v@,
            ) && final(self).pos() == signed_list_end(old(self).data(), old(self).pos()),
    {
        let len = match self.read_i32() {
            Ok(n) => n,
            Err(e) => return Err(e),
        };
        if len < 0 {
            return Err(Error::InvalidCount(len));
        }
        self.read_comment_list(len as usize)
    }

    pub fn read_comments(&mut self) -> (r: Result<Comments, Error>)
        requires
            old(self).wf(),
        ensures
            final(self).wf(),
            final(self).data() == old(self).data(),
            r is Ok <==> comment_section_ok(old(self).data(), old(self).pos()),
            r matches Ok(c) ==> comment_section_at(old(self).data(), old(self).pos(), c)
                && final(self).pos() == comment_section_end(old(self).data(), old(self).pos()),
    {
        let ghost d = self.data();
        let ghost p = self.pos();
        let sub_version = match self.read_i32() {
            Ok(v) => v,
            Err(e) => return Err(e),
        };
        if sub_version != 1 {
            return Err(Error::UnsupportedCommentSubVersion(sub_version));
        }
        let len = match self.read_u32() {
            Ok(n) => n as usize,
            Err(e) => return Err(e),
        };
        let group_comments = match self.read_comment_list(len) {
            Ok(v) => v,
            Err(e) => return Err(e),
        };
        assert(self.pos() == material_comments_pos(d, p));
        let material_comments = match self.read_signed_comment_list() {
            Ok(v) => v,
            Err(e) => return Err(e),
        };
        let joint_comments = match self.read_signed_comment_list() {
            Ok(v) => v,
            Err(e) => return Err(e),
        };
        let count = match self.read_i32() {
            Ok(n) => n,
            Err(e) => return Err(e),
        };
        let model_comment = if count == 0 {
            None
        } else if count == 1 {
            match self.read_comment() {
                Ok(c) => Some(c),
                Err(e) => return Err(e),
            }
        } else {
            return Err(Error::InvalidModelCommentCount(count));
        };
        Ok(Comments { sub_version, group_comments, material_comments, joint_comments, model_comment })
    }

    /// Reads the optional vertex extension for `len` vertices; a source that
    /// ends right here yields `VertexExInfo::Absent`.
    pub fn read_vertex_ex_info(&mut self, len: usize) -> (r: Result<VertexExInfo, Error>)
        requires
            old(self).wf(),
        ensures
            final(self).wf(),
            final(self).data() == old(self).data(),
            r is Ok <==> vertex_ex_ok(old(self).data(), old(self).pos(), len as int),
            r matches Ok(info) ==> vertex_ex_info_at(old(self).data(), old(self).pos(), len as int, info)
                && final(self).pos() == vertex_ex_end(old(self).data(), old(self).pos(), len as int),
    {
        let ghost d = self.data();
        let ghost p = self.pos();
        if self.rdr.at_end() {
            return Ok(VertexExInfo::Absent);
        }
        let sub_version = match self.read_i32() {
            Ok(v) => v,
            Err(e) => return Err(e),
        };
        if sub_version == 1 {
            let mut v: Vec<VertexEx1> = Vec::new();
            let mut i: usize = 0;
            while i < len
                invariant
                    self.wf(),
                    self.data() == d,
                    d == old(self).data(),
                    p == old(self).pos(),
                    p + 4 <= d.len(),
                    i32_le(d, p) == 1,
                    i <= len,
                    self.pos() == p + 4 + 6 * i,
                    v@.len() == i,
                    forall|j: int| 0 <= j < i ==> vertex_ex_1_at(d, p + 4 + 6 * j, #[trigger] v@[j]),
                decreases len - i,
            {
                match self.read_vertex_ex_1() {
                    Ok(x) => v.push(x),
                    Err(e) => return Err(e),
                }
                i = i + 1;
            }
            Ok(VertexExInfo::SubVersion1(v))
        } else if sub_version == 2 {
            let mut v: Vec<VertexEx2> = Vec::new();
            let mut i: usize = 0;
            while i < len
                invariant
                    self.wf(),
                    self.data() == d,
                    d == old(self).data(),
                    p == old(self).pos(),
                    p + 4 <= d.len(),
                    i32_le(d, p) == 2,
                    i <= len,
                    self.pos() == p + 4 + 10 * i,
                    v@.len() == i,
                    forall|j: int| 0 <= j < i ==> vertex_ex_2_at(d, p + 4 + 10 * j, #[trigger] v@[j]),
                decreases len - i,
            {
                match self.read_vertex_ex_2() {
                    Ok(x) => v.push(x),
                    Err(e) => return Err(e),
                }
                i = i + 1;
            }
            Ok(VertexExInfo::SubVersion2(v))
        } else if sub_version == 3 {
            let mut v: Vec<VertexEx3> = Vec::new();
            let mut i: usize = 0;
            while i < len
                invariant
                    self.wf(),
                    self.data() == d,
                    d == old(self).data(),
                    p == old(self).pos(),
                    p + 4 <= d.len(),
                    i32_le(d, p) == 3,
                    i <= len,
                    self.pos() == p + 4 + 14 * i,
                    v@.len() == i,
                    forall|j: int| 0 <= j < i ==> vertex_ex_3_at(d, p + 4 + 14 * j, #[trigger] v@[j]),
                decreases len - i,
            {
                match self.read_vertex_ex_3() {
                    Ok(x) => v.push(x),
                    Err(e) => return Err(e),
                }
                i = i + 1;
            }
            Ok(VertexExInfo::SubVersion3(v))
        } else {
            Err(Error::UnsupportedVertexExSubVersion(sub_version))
        }
    }

    /// Reads the optional joint extension for `len` joints; a source that
    /// ends right here yields sub-version 0 and no records.
    pub fn read_joint_ex_info(&mut self, len: usize) -> (r: Result<JointExInfo, Error>)
        requires
            old(self).wf(),
        ensures
            final(self).wf(),
            final(self).data() == old(self).data(),
            r is Ok <==> joint_ex_ok(old(self).data(), old(self).pos(), len as int),
            r matches Ok(info) ==> joint_ex_info_at(old(self).data(), old(self).pos(), len as int, info)
                && final(self).pos() == joint_ex_end(old(self).data(), old(self).pos(), len as int),
    {
        let ghost d = self.data();
        let ghost p = self.pos();
        if self.rdr.at_end() {
            return Ok(JointExInfo { sub_version: 0, joint_ex: Vec::new() });
        }
        let sub_version = match self.read_i32() {
            Ok(v) => v,
            Err(e) => return Err(e),
        };
        if sub_version != 1 {
            return Err(Error::UnsupportedJointExSubVersion(sub_version));
        }
        let mut joint_ex: Vec<JointEx> = Vec::new();
        let mut i: usize = 0;
        while i < len
            invariant
                self.wf(),
                self.data() == d,
                d == old(self).data(),
                p == old(self).pos(),
                p + 4 <= d.len(),
                i32_le(d, p) == 1,
                i <= len,
                self.pos() == p + 4 + 12 * i,
                joint_ex@.len() == i,
                forall|j: int| 0 <= j < i ==> joint_ex_at(d, p + 4 + 12 * j, #[trigger] joint_ex@[j]),
            decreases len - i,
        {
            match self.read_joint_ex() {
                Ok(x) => joint_ex.push(x),
                Err(e) => return Err(e),
            }
            i = i + 1;
        }
        Ok(JointExInfo { sub_version, joint_ex })
    }

    /// Reads the optional model extension; a source that ends right here
    /// yields sub-version 0 and a zero record.
    pub fn read_model_ex_info(&mut self) -> (r: Result<ModelExInfo, Error>)
        requires
            old(self).wf(),
        ensures
            final(self).wf(),
            final(self).data() == old(self).data(),
            r is Ok <==> model_ex_ok(old(self).data(), old(self).pos()),
            r matches Ok(info) ==> model_ex_info_at(old(self).data(), old(self).pos(), info),
    {
        if self.rdr.at_end() {
            let model_ex = ModelEx { joint_size: 0, transparency_mode: 0, alpha_ref: 0 };
            return Ok(ModelExInfo { sub_version: 0, model_ex });
        }
        let sub_version = match self.read_i32() {
            Ok(v) => v,
            Err(e) => return Err(e),
        };
        if sub_version != 1 {
            return Err(Error::UnsupportedModelExSubVersion(sub_version));
        }
        let model_ex = match self.read_model_ex() {
            Ok(m) => m,
            Err(e) => return Err(e),
        };
        Ok(ModelExInfo { sub_version, model_ex })
    }

    /// Decodes a whole model file from the start of the source.
    pub fn read_model(&mut self) -> (r: Result<Model, Error>)
        requires
            old(self).wf(),
            old(self).pos() == 0,
        ensures
            r is Ok <==> model_ok(old(self).data()),
            r matches Ok(m) ==> model_at(old(self).data(), m),
            r matches Err(e) ==> {
                let d = old(self).data();
                if d.len() < 14 {
                    e == Error::UnexpectedEof
                } else if d.subrange(0, 10) != magic() {
                    e == Error::InvalidHeader
                } else if i32_le(d, 10) != 4 {
                    e == Error::UnsupportedVersion(i32_le(d, 10) as i32)
                } else {
                    true
                }
            },
    {
        let ghost d = self.data();
        assert(d.subrange(0, d.len() as int) =~= d);
        let header = match self.read_header() {
            Ok(h) => h,
            Err(e) => return Err(e),
        };
        let vertices = match self.read_vertices() {
            Ok(v) => v,
            Err(e) => return Err(e),
        };
        let triangles = match self.read_triangles() {
            Ok(v) => v,
            Err(e) => return Err(e),
        };
        let groups = match self.read_groups() {
            Ok(v) => v,
            Err(e) => return Err(e),
        };
        let materials = match self.read_materials() {
            Ok(v) => v,
            Err(e) => return Err(e),
        };
        let key_frame_data = match self.read_key_frame_data() {
            Ok(k) => k,
            Err(e) => return Err(e),
        };
        let joints = match self.read_joints() {
            Ok(v) => v,
            Err(e) => return Err(e),
        };
        let comments = match self.read_comments() {
            Ok(c) => c,
            Err(e) => return Err(e),
        };
        let vertex_ex_info = match self.read_vertex_ex_info(vertices.len()) {
            Ok(v) => v,
            Err(e) => return Err(e),
        };
        let joint_ex_info = match self.read_joint_ex_info(joints.len()) {
            Ok(v) => v,
            Err(e) => return Err(e),
        };
        let model_ex_info = match self.read_model_ex_info() {
            Ok(v) => v,
            Err(e) => return Err(e),
        };
        Ok(Model {
            header,
            vertices,
            triangles,
            groups,
            materials,
            key_frame_data,
            joints,
            comments,
            vertex_ex_info,
            joint_ex_info,
            model_ex_info,
        })
    }
}

impl Model {
    /// Decodes a model file held in memory. Bytes after the last section
    /// are not read.
    pub fn from_bytes(bytes: &[u8]) -> (r: Result<Model, Error>)
        ensures
            r is Ok <==> model_ok(bytes@),
            r matches Ok(m) ==> model_at(bytes@, m),
            r matches Err(e) ==> {
                let d = bytes@;
                if d.len() < 14 {
                    e == Error::UnexpectedEof
                } else if d.subrange(0, 10) != magic() {
                    e == Error::InvalidHeader
                } else if i32_le(d, 10) != 4 {
                    e == Error::UnsupportedVersion(i32_le(d, 10) as i32)
                } else {
                    true
                }
            },
    {
        Reader::from_slice(bytes).read_model()
    }
}

} // verus!
