//! The decoded model tree and the decoder's errors.

use vstd::prelude::*;

verus! {

/// Why a decode failed.
#[derive(Clone, Copy, Debug, PartialEq, Eq, Structural)]
pub enum Error {
    /// The source ended before a record was complete.
    UnexpectedEof,
    /// The file does not start with the `MS3D000000` identifier.
    InvalidHeader,
    /// The header carries a version other than 4.
    UnsupportedVersion(i32),
    /// A flags byte holds an unknown bit, or one not allowed for its record.
    InvalidFlags(u8),
    /// The comment block carries a sub-version other than 1.
    UnsupportedCommentSubVersion(i32),
    /// The vertex extension carries a sub-version other than 1, 2 or 3.
    UnsupportedVertexExSubVersion(i32),
    /// The joint extension carries a sub-version other than 1.
    UnsupportedJointExSubVersion(i32),
    /// The model extension carries a sub-version other than 1.
    UnsupportedModelExSubVersion(i32),
    /// A signed count or length is negative.
    InvalidCount(i32),
    /// The model comment count is neither 0 nor 1.
    InvalidModelCommentCount(i32),
    /// A text field is not valid UTF-8.
    InvalidUtf8,
}

pub const SELECTED: u8 = 1;
pub const HIDDEN: u8 = 2;
pub const SELECTED2: u8 = 4;
pub const DIRTY: u8 = 8;
/// Every bit that names a flag.
pub const ALL_FLAGS: u8 = 15;

/// The flags a vertex may carry: selected, hidden, selected2.
pub const VERTEX_ALLOWED_FLAGS: u8 = 7;
/// The flags a triangle may carry: selected, hidden, selected2.
pub const TRIANGLE_ALLOWED_FLAGS: u8 = 7;
/// The flags a group may carry: selected, hidden.
pub const GROUP_ALLOWED_FLAGS: u8 = 3;
/// The flags a joint may carry: selected, dirty.
pub const JOINT_ALLOWED_FLAGS: u8 = 9;

/// A set of the named flag bits.
#[derive(Clone, Copy, Debug, PartialEq, Eq, Structural)]
pub struct Flags {
    pub bits: u8,
}

/// `b` is a combination of named flags.
pub open spec fn spec_valid_bits(b: u8) -> bool {
    b & !ALL_FLAGS == 0
}

impl Flags {
    /// The set of the bits in `bits`, when each of them names a flag.
    pub fn from_bits(bits: u8) -> (r: Option<Flags>)
        ensures
            r is Some <==> spec_valid_bits(bits),
            r matches Some(f) ==> f.bits == bits,
    {
        if bits & !ALL_FLAGS == 0 {
            Some(Flags { bits })
        } else {
            None
        }
    }

    pub fn bits(&self) -> (r: u8)
        ensures
            r == self.bits,
    {
        self.bits
    }

    /// Whether every flag of `other` is in `self`.
    pub fn contains(&self, other: Flags) -> (r: bool)
        ensures
            r == (other.bits & !self.bits == 0),
    {
        other.bits & !self.bits == 0
    }
}

#[derive(Clone, Debug, PartialEq)]
pub struct Header {
    pub version: i32,
}

/// A vertex; `vertex` holds the bit patterns of the three coordinates.
#[derive(Clone, Debug, PartialEq)]
pub struct Vertex {
    pub flags: Flags,
    pub vertex: [u32; 3],
    pub bone_id: i8,
    pub reference_count: u8,
}

/// A triangle; normals and texture coordinates are held as bit patterns.
#[derive(Clone, Debug, PartialEq)]
pub struct Triangle {
    pub flags: Flags,
    pub vertex_indices: [u16; 3],
    pub vertex_normals: [[u32; 3]; 3],
    pub s: [u32; 3],
    pub t: [u32; 3],
    pub smoothing_group: u8,
    pub group_index: u8,
}

#[derive(Clone, Debug, PartialEq)]
pub struct Group {
    pub flags: Flags,
    pub name: String,
    pub triangle_indices: Vec<u16>,
    pub material_index: i8,
}

/// A material; colours, shininess and transparency are held as bit patterns.
#[derive(Clone, Debug, PartialEq)]
pub struct Material {
    pub name: String,
    pub ambient: [u32; 4],
    pub diffuse: [u32; 4],
    pub specular: [u32; 4],
    pub emissive: [u32; 4],
    pub shininess: u32,
    pub transparency: u32,
    pub mode: u8,
    pub texture: String,
    pub alphamap: String,
}

/// Animation settings; `animation_fps` and `current_time` are bit patterns.
#[derive(Clone, Debug, PartialEq)]
pub struct KeyFrameData {
    pub animation_fps: u32,
    pub current_time: u32,
    pub total_frames: i32,
}

#[derive(Clone, Debug, PartialEq)]
pub struct KeyFrameRot {
    pub time: u32,
    pub rotation: [u32; 3],
}

#[derive(Clone, Debug, PartialEq)]
pub struct KeyFramePos {
    pub time: u32,
    pub position: [u32; 3],
}

#[derive(Clone, Debug, PartialEq)]
pub struct Joint {
    pub flags: Flags,
    pub name: String,
    pub parent_name: String,
    pub rotation: [u32; 3],
    pub position: [u32; 3],
    pub key_frames_rot: Vec<KeyFrameRot>,
    pub key_frames_trans: Vec<KeyFramePos>,
}

#[derive(Clone, Debug, PartialEq)]
pub struct Comment {
    pub index: i32,
    pub comment: String,
}

#[derive(Clone, Debug, PartialEq)]
pub struct Comments {
    pub sub_version: i32,
    pub group_comments: Vec<Comment>,
    pub material_comments: Vec<Comment>,
    pub joint_comments: Vec<Comment>,
    pub model_comment: Option<Comment>,
}

/// The optional per-vertex extension; `Absent` when the file ends before it.
#[derive(Clone, Debug, PartialEq)]
pub enum VertexExInfo {
    Absent,
    SubVersion1(Vec<VertexEx1>),
    SubVersion2(Vec<VertexEx2>),
    SubVersion3(Vec<VertexEx3>),
}

#[derive(Clone, Debug, PartialEq)]
pub struct VertexEx1 {
    pub bone_ids: [i8; 3],
    pub weights: [u8; 3],
}

#[derive(Clone, Debug, PartialEq)]
pub struct VertexEx2 {
    pub bone_ids: [i8; 3],
    pub weights: [u8; 3],
    pub extra: u32,
}

#[derive(Clone, Debug, PartialEq)]
pub struct VertexEx3 {
    pub bone_ids: [i8; 3],
    pub weights: [u8; 3],
    pub extra: [u32; 2],
}

/// The optional per-joint extension; sub-version 0 and no records when the
/// file ends before it.
#[derive(Clone, Debug, PartialEq)]
pub struct JointExInfo {
    pub sub_version: i32,
    pub joint_ex: Vec<JointEx>,
}

/// `color` holds the bit patterns of the three components.
#[derive(Clone, Debug, PartialEq)]
pub struct JointEx {
    pub color: [u32; 3],
}

/// The optional model extension; sub-version 0 and a zero record when the
/// file ends before it.
#[derive(Clone, Debug, PartialEq)]
pub struct ModelExInfo {
    pub sub_version: i32,
    pub model_ex: ModelEx,
}

/// `joint_size` and `alpha_ref` are bit patterns.
#[derive(Clone, Debug, PartialEq)]
pub struct ModelEx {
    pub joint_size: u32,
    pub transparency_mode: i32,
    pub alpha_ref: u32,
}

/// A decoded model file.
#[derive(Clone, Debug, PartialEq)]
pub struct Model {
    pub header: Header,
    pub vertices: Vec<Vertex>,
    pub triangles: Vec<Triangle>,
    pub groups: Vec<Group>,
    pub materials: Vec<Material>,
    pub key_frame_data: KeyFrameData,
    pub joints: Vec<Joint>,
    pub comments: Comments,
    pub vertex_ex_info: VertexExInfo,
    pub joint_ex_info: JointExInfo,
    pub model_ex_info: ModelExInfo,
}

} // verus!
