//! The variable-width reference codec and the handle type of each reference category.
use vstd::arithmetic::div_mod::{lemma_fundamental_div_mod, lemma_mod_bound};
use vstd::prelude::*;

use crate::error::Error;
use crate::source::{fits, le_i16, le_i32, le_i8, Source};

verus! {

/// Byte width of the references of one category, chosen by the header.
#[derive(Clone, Copy, Debug, PartialEq, Eq, Structural)]
pub enum IndexSize {
    I8,
    I16,
    I32,
}

impl IndexSize {
    pub open spec fn width(self) -> int {
        match self {
            IndexSize::I8 => 1,
            IndexSize::I16 => 2,
            IndexSize::I32 => 4,
        }
    }

    /// Smallest value a reference of this width can hold.
    pub open spec fn min_value(self) -> int {
        match self {
            IndexSize::I8 => -0x80,
            IndexSize::I16 => -0x8000,
            IndexSize::I32 => -0x8000_0000,
        }
    }

    /// Largest value a reference of this width can hold.
    pub open spec fn max_value(self) -> int {
        match self {
            IndexSize::I8 => 0x7f,
            IndexSize::I16 => 0x7fff,
            IndexSize::I32 => 0x7fff_ffff,
        }
    }
}

/// The value of the reference of width `size` stored at `p`, sign-extended.
pub open spec fn index_at(b: Seq<u8>, p: int, size: IndexSize) -> i32 {
    (match size {
        IndexSize::I8 => le_i8(b, p),
        IndexSize::I16 => le_i16(b, p),
        IndexSize::I32 => le_i32(b, p),
    }) as i32
}

/// A reference of width `size` at `p`, sign-extended, and the position after it.
pub open spec fn parse_index(b: Seq<u8>, p: int, size: IndexSize) -> Result<(i32, int), Error> {
    if !fits(b, p, size.width()) {
        Err(Error::UnexpectedEnd)
    } else {
        Ok((index_at(b, p, size), p + size.width()))
    }
}

impl Source {
    /// Reads a reference of width `size`, sign-extended to 32 bits.
    pub fn read_index(&mut self, size: IndexSize) -> (r: Result<i32, Error>)
        ensures
            final(self).bytes() == old(self).bytes(),
            match parse_index(old(self).bytes(), old(self).position(), size) {
                Ok((v, e)) => r == Ok::<i32, Error>(v) && final(self).position() == e,
                Err(err) => r == Err::<i32, Error>(err),
            },
    {
        match size {
            IndexSize::I8 => {
                let v = self.read_i8()?;
                Ok(v as i32)
            },
            IndexSize::I16 => {
                let v = self.read_i16()?;
                Ok(v as i32)
            },
            IndexSize::I32 => self.read_i32(),
        }
    }
}

/// The width's two's-complement bit pattern of `v`, as a non-negative number.
pub open spec fn unsigned_of(v: int, size: IndexSize) -> int {
    if v >= 0 {
        v
    } else {
        match size {
            IndexSize::I8 => v + 0x100,
            IndexSize::I16 => v + 0x1_0000,
            IndexSize::I32 => v + 0x1_0000_0000,
        }
    }
}

/// The bytes that store reference value `v` at width `size`, low byte first.
pub open spec fn encode_index(v: int, size: IndexSize) -> Seq<u8> {
    let u = unsigned_of(v, size);
    let q1 = u / 256;
    let q2 = q1 / 256;
    match size {
        IndexSize::I8 => seq![u as u8],
        IndexSize::I16 => seq![(u % 256) as u8, q1 as u8],
        IndexSize::I32 => seq![
            (u % 256) as u8,
            (q1 % 256) as u8,
            (q2 % 256) as u8,
            (q2 / 256) as u8,
        ],
    }
}

/// Every value in a width's signed range comes back unchanged from its stored bytes, and
/// the stored form of -1 reads back as the "none" sentinel.
pub proof fn lemma_index_round_trip(v: int, size: IndexSize)
    requires
        size.min_value() <= v <= size.max_value(),
    ensures
        encode_index(v, size).len() == size.width(),
        parse_index(encode_index(v, size), 0, size) == Ok::<(i32, int), Error>(
            (v as i32, size.width()),
        ),
        v == -1 ==> target_of(index_at(encode_index(v, size), 0, size)) is None,
{
    let b = encode_index(v, size);
    let u = unsigned_of(v, size);
    let q1 = u / 256;
    let q2 = q1 / 256;
    lemma_fundamental_div_mod(u, 256);
    lemma_fundamental_div_mod(q1, 256);
    lemma_fundamental_div_mod(q2, 256);
    lemma_mod_bound(u, 256);
    lemma_mod_bound(q1, 256);
    lemma_mod_bound(q2, 256);
    match size {
        IndexSize::I8 => {
            assert(le_i8(b, 0) == v);
        },
        IndexSize::I16 => {
            assert(le_i16(b, 0) == v);
        },
        IndexSize::I32 => {
            assert(le_i32(b, 0) == v);
        },
    }
}

/// A reference to a vertex; always present.
#[derive(Clone, Copy, Debug, PartialEq, Eq, Structural)]
pub struct VertexIndex(pub i32);

/// A reference to a texture; -1 means none.
#[derive(Clone, Copy, Debug, PartialEq, Eq, Structural)]
pub struct TextureIndex(pub i32);

/// A reference to a material; -1 means none.
#[derive(Clone, Copy, Debug, PartialEq, Eq, Structural)]
pub struct MaterialIndex(pub i32);

/// A reference to a bone; -1 means none.
#[derive(Clone, Copy, Debug, PartialEq, Eq, Structural)]
pub struct BoneIndex(pub i32);

/// A reference to a morph; -1 means none.
#[derive(Clone, Copy, Debug, PartialEq, Eq, Structural)]
pub struct MorphIndex(pub i32);

/// A reference to a rigid body; -1 means none.
#[derive(Clone, Copy, Debug, PartialEq, Eq, Structural)]
pub struct RigidBodyIndex(pub i32);

/// The target of a raw reference that may be absent: `None` for the sentinel -1.
pub open spec fn target_of(v: i32) -> Option<i32> {
    if v == -1 { None } else { Some(v) }
}

fn target(v: i32) -> (r: Option<i32>)
    ensures
        r == target_of(v),
{
    if v == -1 { None } else { Some(v) }
}

impl TextureIndex {
    /// The referenced texture, `None` for the sentinel.
    pub fn get(&self) -> (r: Option<i32>)
        ensures
            r == target_of(self.0),
    {
        target(self.0)
    }
}

impl MaterialIndex {
    /// The referenced material, `None` for the sentinel.
    pub fn get(&self) -> (r: Option<i32>)
        ensures
            r == target_of(self.0),
    {
        target(self.0)
    }
}

impl BoneIndex {
    /// The referenced bone, `None` for the sentinel.
    pub fn get(&self) -> (r: Option<i32>)
        ensures
            r == target_of(self.0),
    {
        target(self.0)
    }
}

impl MorphIndex {
    /// The referenced morph, `None` for the sentinel.
    pub fn get(&self) -> (r: Option<i32>)
        ensures
            r == target_of(self.0),
    {
        target(self.0)
    }
}

impl RigidBodyIndex {
    /// The referenced rigid body, `None` for the sentinel.
    pub fn get(&self) -> (r: Option<i32>)
        ensures
            r == target_of(self.0),
    {
        target(self.0)
    }
}

} // verus!
