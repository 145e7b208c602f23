//! The closed set of ways a decode can fail.
use vstd::prelude::*;

verus! {

/// Why a decode failed. Every variant is terminal for the decode in progress.
#[derive(Clone, Copy, Debug, PartialEq, Eq, Structural)]
pub enum Error {
    /// The input ended inside a value.
    UnexpectedEnd,
    /// The file does not start with the PMX signature.
    InvalidSignature,
    /// The header's version is neither 2.0 nor 2.1; carries its bit pattern.
    UnsupportedVersion(u32),
    /// The header declares fewer than eight configuration bytes.
    InvalidGlobalCount(u8),
    /// A text run is not valid under the declared encoding.
    InvalidText,
    /// The header's text-encoding selector is neither 0 nor 1.
    InvalidTextEncoding(u8),
    /// A header index-width selector is not 1, 2 or 4.
    InvalidIndexSize(u8),
    /// The header's additional-vec4 count exceeds 4.
    InvalidAdditionalCount(u8),
    /// A vertex's weight-deform tag is not 0 to 4.
    UnknownWeightType(u8),
    /// A rigid body's shape byte is not 0 to 2.
    InvalidShapeType(u8),
    /// A rigid body's physics-mode byte is not 0 to 2.
    InvalidPhysicsMode(u8),
    /// A joint's type byte is not 0 to 5.
    InvalidJointType(u8),
    /// A display frame target's tag is neither 0 nor 1.
    InvalidFrameType(u8),
    /// A morph's kind byte is not 0 to 10.
    InvalidMorphType(u8),
    /// A material's toon-reference tag is neither 0 nor 1.
    InvalidToonReference(u8),
}

} // verus!
