//! The five skinning forms of a vertex, selected by a one-byte tag.
use vstd::prelude::*;

use crate::error::Error;
use crate::geometry::{f32_at, vec3_at, Vec3};
use crate::index::{index_at, BoneIndex, IndexSize};
use crate::source::{fits, Source};

verus! {

/// One bone with full weight.
#[derive(Clone, Copy, Debug, PartialEq, Eq, Structural)]
pub struct Bdef1 {
    pub bone_index: BoneIndex,
}

/// Linear blend of two bones; the second weighs one minus the first.
#[derive(Clone, Copy, Debug, PartialEq, Eq, Structural)]
pub struct Bdef2 {
    pub bone_1_index: BoneIndex,
    pub bone_2_index: BoneIndex,
    pub bone_1_weight: u32,
}

/// Linear blend of four bones with independent weights.
#[derive(Clone, Copy, Debug, PartialEq, Eq, Structural)]
pub struct Bdef4 {
    pub bone_1_index: BoneIndex,
    pub bone_2_index: BoneIndex,
    pub bone_3_index: BoneIndex,
    pub bone_4_index: BoneIndex,
    pub bone_1_weight: u32,
    pub bone_2_weight: u32,
    pub bone_3_weight: u32,
    pub bone_4_weight: u32,
}

/// Spherical blend of two bones with its auxiliary geometry.
#[derive(Clone, Copy, Debug, PartialEq, Eq, Structural)]
pub struct Sdef {
    pub bone_1_index: BoneIndex,
    pub bone_2_index: BoneIndex,
    pub bone_1_weight: u32,
    pub c: Vec3,
    pub r0: Vec3,
    pub r1: Vec3,
}

/// Dual-quaternion blend of four bones.
#[derive(Clone, Copy, Debug, PartialEq, Eq, Structural)]
pub struct Qdef {
    pub bone_1_index: BoneIndex,
    pub bone_2_index: BoneIndex,
    pub bone_3_index: BoneIndex,
    pub bone_4_index: BoneIndex,
    pub bone_1_weight: u32,
    pub bone_2_weight: u32,
    pub bone_3_weight: u32,
    pub bone_4_weight: u32,
}

#[derive(Clone, Copy, Debug, PartialEq, Eq, Structural)]
pub enum WeightDeform {
    Bdef1(Bdef1),
    Bdef2(Bdef2),
    Bdef4(Bdef4),
    Sdef(Sdef),
    Qdef(Qdef),
}

/// Byte length of the payload that follows tag `tag` when bone references are `w` bytes wide.
pub open spec fn payload_len(tag: u8, w: int) -> int {
    if tag == 0 {
        w
    } else if tag == 1 {
        2 * w + 4
    } else if tag == 3 {
        2 * w + 40
    } else {
        4 * w + 16
    }
}

/// The form that tag `tag` selects, with its payload stored at `q`.
pub open spec fn weight_deform_at(b: Seq<u8>, q: int, tag: u8, size: IndexSize) -> WeightDeform {
    let w = size.width();
    let i1 = BoneIndex(index_at(b, q, size));
    let i2 = BoneIndex(index_at(b, q + w, size));
    let i3 = BoneIndex(index_at(b, q + 2 * w, size));
    let i4 = BoneIndex(index_at(b, q + 3 * w, size));
    if tag == 0 {
        WeightDeform::Bdef1(Bdef1 { bone_index: i1 })
    } else if tag == 1 {
        WeightDeform::Bdef2(
            Bdef2 { bone_1_index: i1, bone_2_index: i2, bone_1_weight: f32_at(b, q + 2 * w) },
        )
    } else if tag == 3 {
        WeightDeform::Sdef(
            Sdef {
                bone_1_index: i1,
                bone_2_index: i2,
                bone_1_weight: f32_at(b, q + 2 * w),
                c: vec3_at(b, q + 2 * w + 4),
                r0: vec3_at(b, q + 2 * w + 16),
                r1: vec3_at(b, q + 2 * w + 28),
            },
        )
    } else if tag == 2 {
        WeightDeform::Bdef4(
            Bdef4 {
                bone_1_index: i1,
                bone_2_index: i2,
                bone_3_index: i3,
                bone_4_index: i4,
                bone_1_weight: f32_at(b, q + 4 * w),
                bone_2_weight: f32_at(b, q + 4 * w + 4),
                bone_3_weight: f32_at(b, q + 4 * w + 8),
                bone_4_weight: f32_at(b, q + 4 * w + 12),
            },
        )
    } else {
        WeightDeform::Qdef(
            Qdef {
                bone_1_index: i1,
                bone_2_index: i2,
                bone_3_index: i3,
                bone_4_index: i4,
                bone_1_weight: f32_at(b, q + 4 * w),
                bone_2_weight: f32_at(b, q + 4 * w + 4),
                bone_3_weight: f32_at(b, q + 4 * w + 8),
                bone_4_weight: f32_at(b, q + 4 * w + 12),
            },
        )
    }
}

/// A tagged weight-deform record at `p` and the position after it; tags above 4 are refused.
pub open spec fn parse_weight_deform(b: Seq<u8>, p: int, size: IndexSize) -> Result<
    (WeightDeform, int),
    Error,
> {
    if !fits(b, p, 1) {
        Err(Error::UnexpectedEnd)
    } else if b[p] > 4 {
        Err(Error::UnknownWeightType(b[p]))
    } else if !fits(b, p + 1, payload_len(b[p], size.width())) {
        Err(Error::UnexpectedEnd)
    } else {
        Ok(
            (
                weight_deform_at(b, p + 1, b[p], size),
                p + 1 + payload_len(b[p], size.width()),
            ),
        )
    }
}

/// The tag byte that stores form `wd`.
pub open spec fn tag_of(wd: WeightDeform) -> u8 {
    match wd {
        WeightDeform::Bdef1(_) => 0,
        WeightDeform::Bdef2(_) => 1,
        WeightDeform::Bdef4(_) => 2,
        WeightDeform::Sdef(_) => 3,
        WeightDeform::Qdef(_) => 4,
    }
}

/// Each of the five tags yields the form it names and no other once its payload is there,
/// and any larger tag fails with the unknown-weight-type error carrying that tag.
pub proof fn lemma_weight_deform_tag(b: Seq<u8>, p: int, size: IndexSize)
    requires
        fits(b, p, 1),
    ensures
        b[p] <= 4 && fits(b, p + 1, payload_len(b[p], size.width())) ==> parse_weight_deform(
            b,
            p,
            size,
        ) is Ok && tag_of(parse_weight_deform(b, p, size)->Ok_0.0) == b[p],
        b[p] > 4 ==> parse_weight_deform(b, p, size) == Err::<(WeightDeform, int), Error>(
            Error::UnknownWeightType(b[p]),
        ),
{
}

impl Source {
    /// Reads a weight-deform tag and the payload of the form it selects.
    pub fn read_weight_deform(&mut self, size: IndexSize) -> (r: Result<WeightDeform, Error>)
        ensures
            final(self).bytes() == old(self).bytes(),
            match parse_weight_deform(old(self).bytes(), old(self).position(), size) {
                Ok((v, e)) => r == Ok::<WeightDeform, Error>(v) && final(self).position() == e,
                Err(err) => r == Err::<WeightDeform, Error>(err),
            },
    {
        let tag = self.read_u8()?;
        match tag {
            0u8 => {
                let bone_index = BoneIndex(self.read_index(size)?);
                Ok(WeightDeform::Bdef1(Bdef1 { bone_index }))
            },
            1u8 => {
                let bone_1_index = BoneIndex(self.read_index(size)?);
                let bone_2_index = BoneIndex(self.read_index(size)?);
                let bone_1_weight = self.read_f32()?;
                Ok(WeightDeform::Bdef2(Bdef2 { bone_1_index, bone_2_index, bone_1_weight }))
            },
            2u8 => {
                let bone_1_index = BoneIndex(self.read_index(size)?);
                let bone_2_index = BoneIndex(self.read_index(size)?);
                let bone_3_index = BoneIndex(self.read_index(size)?);
                let bone_4_index = BoneIndex(self.read_index(size)?);
                let bone_1_weight = self.read_f32()?;
                let bone_2_weight = self.read_f32()?;
                let bone_3_weight = self.read_f32()?;
                let bone_4_weight = self.read_f32()?;
                Ok(
                    WeightDeform::Bdef4(
                        Bdef4 {
                            bone_1_index,
                            bone_2_index,
                            bone_3_index,
                            bone_4_index,
                            bone_1_weight,
                            bone_2_weight,
                            bone_3_weight,
                            bone_4_weight,
                        },
                    ),
                )
            },
            3u8 => {
                let bone_1_index = BoneIndex(self.read_index(size)?);
                let bone_2_index = BoneIndex(self.read_index(size)?);
                let bone_1_weight = self.read_f32()?;
                let c = self.read_vec3()?;
                let r0 = self.read_vec3()?;
                let r1 = self.read_vec3()?;
                Ok(
                    WeightDeform::Sdef(
                        Sdef { bone_1_index, bone_2_index, bone_1_weight, c, r0, r1 },
                    ),
                )
            },
            4u8 => {
                let bone_1_index = BoneIndex(self.read_index(size)?);
                let bone_2_index = BoneIndex(self.read_index(size)?);
                let bone_3_index = BoneIndex(self.read_index(size)?);
                let bone_4_index = BoneIndex(self.read_index(size)?);
                let bone_1_weight = self.read_f32()?;
                let bone_2_weight = self.read_f32()?;
                let bone_3_weight = self.read_f32()?;
                let bone_4_weight = self.read_f32()?;
                Ok(
                    WeightDeform::Qdef(
                        Qdef {
                            bone_1_index,
                            bone_2_index,
                            bone_3_index,
                            bone_4_index,
                            bone_1_weight,
                            bone_2_weight,
                            bone_3_weight,
                            bone_4_weight,
                        },
                    ),
                )
            },
            e => Err(Error::UnknownWeightType(e)),
        }
    }
}

} // verus!
