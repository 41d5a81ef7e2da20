//! Decoding of MilkShape 3D (`.ms3d`) model files into a typed model tree.
//!
//! The entry point is [`Model::from_bytes`], which decodes a whole file held
//! in memory. Floating-point fields are carried as their IEEE-754 bit
//! patterns (`u32`).

pub mod de;
pub mod layout;
pub mod model;
pub mod prefix;
pub mod read;
pub mod unique;

pub use de::Reader;
pub use model::{
    Comment, Comments, Error, Flags, Group, Header, Joint, JointEx, JointExInfo, KeyFrameData,
    KeyFramePos, KeyFrameRot, Material, Model, ModelEx, ModelExInfo, Triangle, Vertex, VertexEx1,
    VertexEx2, VertexEx3, VertexExInfo,
};
pub use read::SliceReader;
