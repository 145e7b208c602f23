//! Decoder for PMX model files: a chain of section readers over one byte source.
//!
//! Each section reader owns the source; the next one is built by consuming it, which first
//! drains whatever records the caller left unread. Floats are kept as their IEEE-754 bit
//! patterns.
pub mod bone;
pub mod display;
pub mod error;
pub mod geometry;
pub mod header;
pub mod index;
pub mod joint;
pub mod material;
pub mod morph;
pub mod rigid_body;
pub mod section;
pub mod source;
pub mod surface;
pub mod text;
pub mod texture;
pub mod vertex;
pub mod weight_deform;

pub use bone::{
    Additional, Bone, BoneFlagSet, BoneFlags, BoneReader, Connection, IKLimits, IKLink,
    InverseKinematics, LocalAxis,
};
pub use display::{DisplayFrame, DisplayIterator, DisplayReader, Frame};
pub use error::Error;
pub use geometry::{Vec2, Vec3, Vec4};
pub use header::{HeaderReader, Settings};
pub use index::{BoneIndex, IndexSize, MaterialIndex, MorphIndex, RigidBodyIndex, TextureIndex, VertexIndex};
pub use joint::{Joint, JointIterator, JointReader, JointType};
pub use material::{Material, MaterialReader, Toon};
pub use morph::{Morph, MorphKind, MorphOffset, MorphReader};
pub use rigid_body::{PhysicsMode, RigidBody, RigidBodyIterator, RigidBodyReader, ShapeType};
pub use source::Source;
pub use surface::{Surface, SurfaceReader};
pub use text::TextEncoding;
pub use texture::TextureReader;
pub use vertex::{Vertex, VertexIterator, VertexReader};
pub use weight_deform::{Bdef1, Bdef2, Bdef4, Qdef, Sdef, WeightDeform};
