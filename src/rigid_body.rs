//! The rigid-body section: collision shapes attached to bones.
use vstd::prelude::*;

use crate::display::{display_step, DisplayReader};
use crate::error::Error;
use crate::geometry::{f32_at, vec3_at, Vec3};
use crate::header::Settings;
use crate::index::{index_at, BoneIndex};
use crate::section::{lemma_drain_unfold, next_section, pending, remaining_of};
use crate::source::{fits, le_u16, Source};
use crate::text::parse_names;

verus! {

#[derive(Clone, Copy, Debug, PartialEq, Eq, Structural)]
pub enum ShapeType {
    Sphere,
    Box,
    Capsule,
}

pub open spec fn shape_type_of(v: u8) -> Option<ShapeType> {
    if v == 0 {
        Some(ShapeType::Sphere)
    } else if v == 1 {
        Some(ShapeType::Box)
    } else if v == 2 {
        Some(ShapeType::Capsule)
    } else {
        None
    }
}

impl ShapeType {
    /// The shape a byte names; any other byte fails with the invalid-shape error.
    pub fn try_from(value: u8) -> (r: Result<ShapeType, Error>)
        ensures
            match shape_type_of(value) {
                Some(t) => r == Ok::<ShapeType, Error>(t),
                None => r == Err::<ShapeType, Error>(Error::InvalidShapeType(value)),
            },
    {
        match value {
            0u8 => Ok(ShapeType::Sphere),
            1u8 => Ok(ShapeType::Box),
            2u8 => Ok(ShapeType::Capsule),
            e => Err(Error::InvalidShapeType(e)),
        }
    }
}

#[derive(Clone, Copy, Debug, PartialEq, Eq, Structural)]
pub enum PhysicsMode {
    Static,
    Dynamic,
    DynamicPivoted,
}

pub open spec fn physics_mode_of(v: u8) -> Option<PhysicsMode> {
    if v == 0 {
        Some(PhysicsMode::Static)
    } else if v == 1 {
        Some(PhysicsMode::Dynamic)
    } else if v == 2 {
        Some(PhysicsMode::DynamicPivoted)
    } else {
        None
    }
}

impl PhysicsMode {
    /// The mode a byte names; any other byte fails with the invalid-physics-mode error.
    pub fn try_from(value: u8) -> (r: Result<PhysicsMode, Error>)
        ensures
            match physics_mode_of(value) {
                Some(m) => r == Ok::<PhysicsMode, Error>(m),
                None => r == Err::<PhysicsMode, Error>(Error::InvalidPhysicsMode(value)),
            },
    {
        match value {
            0u8 => Ok(PhysicsMode::Static),
            1u8 => Ok(PhysicsMode::Dynamic),
            2u8 => Ok(PhysicsMode::DynamicPivoted),
            e => Err(Error::InvalidPhysicsMode(e)),
        }
    }
}

#[derive(Debug)]
pub struct RigidBody {
    pub local_name: String,
    pub universal_name: String,
    pub bone_index: BoneIndex,
    pub group_id: u8,
    pub non_collision_mask: u16,
    pub shape: ShapeType,
    pub shape_size: Vec3,
    pub shape_position: Vec3,
    pub shape_rotation: Vec3,
    pub mass: u32,
    pub move_attenuation: u32,
    pub rotation_damping: u32,
    pub repulsion: u32,
    pub fiction: u32,
    pub physics_mode: PhysicsMode,
}

pub struct RigidBodyView {
    pub local_name: Seq<char>,
    pub universal_name: Seq<char>,
    pub bone_index: BoneIndex,
    pub group_id: u8,
    pub non_collision_mask: u16,
    pub shape: ShapeType,
    pub shape_size: Vec3,
    pub shape_position: Vec3,
    pub shape_rotation: Vec3,
    pub mass: u32,
    pub move_attenuation: u32,
    pub rotation_damping: u32,
    pub repulsion: u32,
    pub fiction: u32,
    pub physics_mode: PhysicsMode,
}

impl View for RigidBody {
    type V = RigidBodyView;

    open spec fn view(&self) -> RigidBodyView {
        RigidBodyView {
            local_name: self.local_name@,
            universal_name: self.universal_name@,
            bone_index: self.bone_index,
            group_id: self.group_id,
            non_collision_mask: self.non_collision_mask,
            shape: self.shape,
            shape_size: self.shape_size,
            shape_position: self.shape_position,
            shape_rotation: self.shape_rotation,
            mass: self.mass,
            move_attenuation: self.move_attenuation,
            rotation_damping: self.rotation_damping,
            repulsion: self.repulsion,
            fiction: self.fiction,
            physics_mode: self.physics_mode,
        }
    }
}

/// A rigid-body record at `p` under settings `s`, and the position after it.
pub open spec fn parse_rigid_body(b: Seq<u8>, p: int, s: Settings) -> Result<
    (RigidBodyView, int),
    Error,
> {
    let size = s.bone_index_size;
    let w = size.width();
    match parse_names(b, p, s.text_encoding) {
        Err(err) => Err(err),
        Ok((local, universal, q)) => if !fits(b, q, w + 4) {
            Err(Error::UnexpectedEnd)
        } else if shape_type_of(b[q + w + 3]) is None {
            Err(Error::InvalidShapeType(b[q + w + 3]))
        } else {
            let g = q + w + 4;
            if !fits(b, g, 57) {
                Err(Error::UnexpectedEnd)
            } else if physics_mode_of(b[g + 56]) is None {
                Err(Error::InvalidPhysicsMode(b[g + 56]))
            } else {
                Ok(
                    (
                        RigidBodyView {
                            local_name: local,
                            universal_name: universal,
                            bone_index: BoneIndex(index_at(b, q, size)),
                            group_id: b[q + w],
                            non_collision_mask: le_u16(b, q + w + 1) as u16,
                            shape: shape_type_of(b[q + w + 3])->Some_0,
                            shape_size: vec3_at(b, g),
                            shape_position: vec3_at(b, g + 12),
                            shape_rotation: vec3_at(b, g + 24),
                            mass: f32_at(b, g + 36),
                            move_attenuation: f32_at(b, g + 40),
                            rotation_damping: f32_at(b, g + 44),
                            repulsion: f32_at(b, g + 48),
                            fiction: f32_at(b, g + 52),
                            physics_mode: physics_mode_of(b[g + 56])->Some_0,
                        },
                        g + 57,
                    ),
                )
            }
        },
    }
}

pub open spec fn rigid_body_step(s: Settings) -> spec_fn(Seq<u8>, int) -> Result<int, Error> {
    |b: Seq<u8>, p: int|
        match parse_rigid_body(b, p, s) {
            Ok((_, e)) => Ok(e),
            Err(err) => Err(err),
        }
}

/// Reader of the rigid-body section.
pub struct RigidBodyReader {
    pub settings: Settings,
    pub count: i32,
    pub remaining: i32,
    pub read: Source,
}

impl RigidBodyReader {
    /// Drains the display frames `prev` has not decoded, then opens the rigid-body section.
    pub fn new(prev: DisplayReader) -> (r: Result<RigidBodyReader, Error>)
        ensures
            match next_section(
                display_step(prev.settings),
                prev.read.bytes(),
                prev.read.position(),
                pending(prev.remaining),
            ) {
                Ok((c, e)) => r is Ok && r->Ok_0.settings == prev.settings && r->Ok_0.count == c
                    && r->Ok_0.remaining == remaining_of(c) && r->Ok_0.read.bytes()
                    == prev.read.bytes() && r->Ok_0.read.position() == e,
                Err(err) => r is Err && r->Err_0 == err,
            },
    {
        let ghost s = prev.settings;
        let ghost b = prev.read.bytes();
        let ghost goal = next_section(display_step(s), b, prev.read.position(), pending(prev.remaining));
        let mut v = prev;
        while v.remaining > 0
            invariant
                s == prev.settings,
                b == prev.read.bytes(),
                goal == next_section(
                    display_step(prev.settings),
                    prev.read.bytes(),
                    prev.read.position(),
                    pending(prev.remaining),
                ),
                v.settings == s,
                v.read.bytes() == b,
                goal == next_section(display_step(s), b, v.read.position(), pending(v.remaining)),
            decreases v.remaining,
        {
            proof {
                lemma_drain_unfold(display_step(s), b, v.read.position(), pending(v.remaining));
            }
            v.next()?;
        }
        let count = v.read.read_i32()?;
        Ok(
            RigidBodyReader {
                settings: v.settings,
                count,
                remaining: if count < 0 {
                    0
                } else {
                    count
                },
                read: v.read,
            },
        )
    }

    /// Decodes the next rigid body, or gives `None` once the section is used up.
    pub fn next(&mut self) -> (r: Result<Option<RigidBody>, Error>)
        ensures
            final(self).settings == old(self).settings,
            final(self).count == old(self).count,
            final(self).read.bytes() == old(self).read.bytes(),
            old(self).remaining <= 0 ==> r is Ok && r->Ok_0 is None && *final(self) == *old(self),
            old(self).remaining > 0 ==> match parse_rigid_body(
                old(self).read.bytes(),
                old(self).read.position(),
                old(self).settings,
            ) {
                Ok((v, e)) => r is Ok && r->Ok_0 is Some && r->Ok_0->Some_0@ == v
                    && final(self).read.position() == e && final(self).remaining == old(
                    self,
                ).remaining - 1,
                Err(err) => r is Err && r->Err_0 == err,
            },
            old(self).remaining > 0 ==> match rigid_body_step(old(self).settings)(
                old(self).read.bytes(),
                old(self).read.position(),
            ) {
                Ok(e) => r is Ok && final(self).read.position() == e && final(self).remaining
                    == old(self).remaining - 1,
                Err(err) => r is Err && r->Err_0 == err,
            },
    {
        if self.remaining <= 0 {
            return Ok(None);
        }
        let (local_name, universal_name) = self.read.read_names(self.settings.text_encoding)?;
        let bone_index = BoneIndex(self.read.read_index(self.settings.bone_index_size)?);
        let group_id = self.read.read_u8()?;
        let non_collision_mask = self.read.read_u16()?;
        let shape = ShapeType::try_from(self.read.read_u8()?)?;
        let shape_size = self.read.read_vec3()?;
        let shape_position = self.read.read_vec3()?;
        let shape_rotation = self.read.read_vec3()?;
        let mass = self.read.read_f32()?;
        let move_attenuation = self.read.read_f32()?;
        let rotation_damping = self.read.read_f32()?;
        let repulsion = self.read.read_f32()?;
        let fiction = self.read.read_f32()?;
        let physics_mode = PhysicsMode::try_from(self.read.read_u8()?)?;
        self.remaining = self.remaining - 1;
        Ok(
            Some(
                RigidBody {
                    local_name,
                    universal_name,
                    bone_index,
                    group_id,
                    non_collision_mask,
                    shape,
                    shape_size,
                    shape_position,
                    shape_rotation,
                    mass,
                    move_attenuation,
                    rotation_damping,
                    repulsion,
                    fiction,
                    physics_mode,
                },
            ),
        )
    }

    /// A sequence over the rigid bodies still unread; decoding one advances this reader.
    pub fn iter(&mut self) -> (r: RigidBodyIterator<'_>)
        ensures
            *r.reader == *old(self),
            *final(self) == *final(r.reader),
    {
        RigidBodyIterator { reader: self }
    }
}

/// Yields each remaining rigid body in turn, or the error that stopped decoding.
pub struct RigidBodyIterator<'a> {
    pub reader: &'a mut RigidBodyReader,
}

impl<'a> RigidBodyIterator<'a> {
    /// `None` once the section is used up; otherwise the next decode result.
    pub fn next(&mut self) -> (r: Option<Result<RigidBody, Error>>)
        ensures
            final(self).reader.settings == old(self).reader.settings,
            final(self).reader.count == old(self).reader.count,
            final(self).reader.read.bytes() == old(self).reader.read.bytes(),
            old(self).reader.remaining <= 0 ==> r is None && *final(self).reader == *old(
                self,
            ).reader,
            old(self).reader.remaining > 0 ==> match parse_rigid_body(
                old(self).reader.read.bytes(),
                old(self).reader.read.position(),
                old(self).reader.settings,
            ) {
                Ok((v, e)) => r is Some && r->Some_0 is Ok && r->Some_0->Ok_0@ == v
                    && final(self).reader.read.position() == e && final(self).reader.remaining
                    == old(self).reader.remaining - 1,
                Err(err) => r is Some && r->Some_0 is Err && r->Some_0->Err_0 == err,
            },
    {
        match self.reader.next() {
            Ok(Some(v)) => Some(Ok(v)),
            Ok(None) => None,
            Err(e) => Some(Err(e)),
        }
    }
}

} // verus!
