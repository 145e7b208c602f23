//! The bone section: a fixed core and sub-structures gated by flag bits.
use vstd::prelude::*;

use crate::error::Error;
use crate::geometry::{f32_at, vec3_at, Vec3};
use crate::header::Settings;
use crate::index::{index_at, BoneIndex, IndexSize};
use crate::material::{material_step, MaterialReader};
use crate::section::{
    lemma_drain_unfold, lemma_list_done, lemma_list_step, list_after, next_section,
    parse_list, pending, remaining_of,
};
use crate::source::{fits, le_i32, le_u16, le_u32, Source};
use crate::text::parse_names;

verus! {

/// The named bits of a bone's flag set.
#[derive(Clone, Copy, Debug, PartialEq, Eq, Structural)]
pub enum BoneFlags {
    Connection,
    Rotatable,
    Movable,
    Display,
    CanOperate,
    InverseKinematics,
    Unknown6,
    AddLocalDeform,
    AddRotation,
    AddMovement,
    FixedAxis,
    LocalAxis,
    PhysicalTransform,
    ExternalParentTransform,
}

impl BoneFlags {
    /// The bit this flag occupies in the stored flag word.
    pub open spec fn mask_spec(self) -> u16 {
        match self {
            BoneFlags::Connection => 0x0001,
            BoneFlags::Rotatable => 0x0002,
            BoneFlags::Movable => 0x0004,
            BoneFlags::Display => 0x0008,
            BoneFlags::CanOperate => 0x0010,
            BoneFlags::InverseKinematics => 0x0020,
            BoneFlags::Unknown6 => 0x0040,
            BoneFlags::AddLocalDeform => 0x0080,
            BoneFlags::AddRotation => 0x0100,
            BoneFlags::AddMovement => 0x0200,
            BoneFlags::FixedAxis => 0x0400,
            BoneFlags::LocalAxis => 0x0800,
            BoneFlags::PhysicalTransform => 0x1000,
            BoneFlags::ExternalParentTransform => 0x2000,
        }
    }

    pub fn mask(self) -> (r: u16)
        ensures
            r == self.mask_spec(),
    {
        match self {
            BoneFlags::Connection => 0x0001,
            BoneFlags::Rotatable => 0x0002,
            BoneFlags::Movable => 0x0004,
            BoneFlags::Display => 0x0008,
            BoneFlags::CanOperate => 0x0010,
            BoneFlags::InverseKinematics => 0x0020,
            BoneFlags::Unknown6 => 0x0040,
            BoneFlags::AddLocalDeform => 0x0080,
            BoneFlags::AddRotation => 0x0100,
            BoneFlags::AddMovement => 0x0200,
            BoneFlags::FixedAxis => 0x0400,
            BoneFlags::LocalAxis => 0x0800,
            BoneFlags::PhysicalTransform => 0x1000,
            BoneFlags::ExternalParentTransform => 0x2000,
        }
    }
}

/// A bone's flag word as stored; bits that name no flag are kept as read.
#[derive(Clone, Copy, Debug, PartialEq, Eq, Structural)]
pub struct BoneFlagSet {
    pub bits: u16,
}

impl BoneFlagSet {
    pub open spec fn contains_spec(self, f: BoneFlags) -> bool {
        self.bits & f.mask_spec() != 0
    }

    /// Whether flag `f` is set.
    pub fn contains(&self, f: BoneFlags) -> (r: bool)
        ensures
            r == self.contains_spec(f),
    {
        self.bits & f.mask() != 0
    }
}

/// Where a bone points to: another bone, or a fixed offset.
#[derive(Clone, Copy, Debug, PartialEq, Eq, Structural)]
pub enum Connection {
    Index(BoneIndex),
    Position(Vec3),
}

/// The bone whose transform is added to this one, and at what rate.
#[derive(Clone, Copy, Debug, PartialEq, Eq, Structural)]
pub struct Additional {
    pub parent: BoneIndex,
    pub rate: u32,
}

#[derive(Clone, Copy, Debug, PartialEq, Eq, Structural)]
pub struct LocalAxis {
    pub x: Vec3,
    pub z: Vec3,
}

/// Rotation limits of an IK link: minimum, then maximum.
#[derive(Clone, Copy, Debug, PartialEq, Eq, Structural)]
pub struct IKLimits {
    pub min: Vec3,
    pub max: Vec3,
}

#[derive(Clone, Copy, Debug)]
pub struct IKLink {
    pub ik_bone: BoneIndex,
    pub limits: Option<IKLimits>,
}

#[derive(Debug)]
pub struct InverseKinematics {
    pub ik_bone: BoneIndex,
    pub iterations: u32,
    pub limit_angle: u32,
    pub links: Vec<IKLink>,
}

pub struct InverseKinematicsView {
    pub ik_bone: BoneIndex,
    pub iterations: u32,
    pub limit_angle: u32,
    pub links: Seq<IKLink>,
}

impl View for InverseKinematics {
    type V = InverseKinematicsView;

    open spec fn view(&self) -> InverseKinematicsView {
        InverseKinematicsView {
            ik_bone: self.ik_bone,
            iterations: self.iterations,
            limit_angle: self.limit_angle,
            links: self.links@,
        }
    }
}

/// The fixed-size sub-structures of a bone that its flags select.
#[derive(Clone, Copy, Debug)]
pub struct BoneTail {
    pub connection: Connection,
    pub additional: Option<Additional>,
    pub fixed_axis: Option<Vec3>,
    pub local_axis: Option<LocalAxis>,
    pub external_parent_transform: Option<i32>,
}

#[derive(Debug)]
pub struct Bone {
    pub local_name: String,
    pub universal_name: String,
    pub position: Vec3,
    pub parent: BoneIndex,
    pub transform_level: i32,
    pub bone_flags: BoneFlagSet,
    pub connection: Connection,
    pub additional: Option<Additional>,
    pub fixed_axis: Option<Vec3>,
    pub local_axis: Option<LocalAxis>,
    pub external_parent_transform: Option<i32>,
    pub inverse_kinematics: Option<InverseKinematics>,
}

pub struct BoneView {
    pub local_name: Seq<char>,
    pub universal_name: Seq<char>,
    pub position: Vec3,
    pub parent: BoneIndex,
    pub transform_level: i32,
    pub bone_flags: BoneFlagSet,
    pub connection: Connection,
    pub additional: Option<Additional>,
    pub fixed_axis: Option<Vec3>,
    pub local_axis: Option<LocalAxis>,
    pub external_parent_transform: Option<i32>,
    pub inverse_kinematics: Option<InverseKinematicsView>,
}

impl View for Bone {
    type V = BoneView;

    open spec fn view(&self) -> BoneView {
        BoneView {
            local_name: self.local_name@,
            universal_name: self.universal_name@,
            position: self.position,
            parent: self.parent,
            transform_level: self.transform_level,
            bone_flags: self.bone_flags,
            connection: self.connection,
            additional: self.additional,
            fixed_axis: self.fixed_axis,
            local_axis: self.local_axis,
            external_parent_transform: self.external_parent_transform,
            inverse_kinematics: match self.inverse_kinematics {
                Some(ik) => Some(ik@),
                None => None,
            },
        }
    }
}

/// An IK link at `p`: a bone reference, a limit flag byte, and the limits when it is nonzero.
pub open spec fn parse_link(b: Seq<u8>, p: int, size: IndexSize) -> Result<(IKLink, int), Error> {
    let w = size.width();
    if !fits(b, p, w + 1) {
        Err(Error::UnexpectedEnd)
    } else if b[p + w] == 0 {
        Ok((IKLink { ik_bone: BoneIndex(index_at(b, p, size)), limits: None }, p + w + 1))
    } else if !fits(b, p + w + 1, 24) {
        Err(Error::UnexpectedEnd)
    } else {
        Ok(
            (
                IKLink {
                    ik_bone: BoneIndex(index_at(b, p, size)),
                    limits: Some(
                        IKLimits { min: vec3_at(b, p + w + 1), max: vec3_at(b, p + w + 13) },
                    ),
                },
                p + w + 25,
            ),
        )
    }
}

pub open spec fn link_item(size: IndexSize) -> spec_fn(Seq<u8>, int) -> Result<(IKLink, int), Error> {
    |b: Seq<u8>, p: int| parse_link(b, p, size)
}

/// An IK chain at `p`: target, iteration cap, angle limit, then a count-prefixed link list;
/// a negative count holds no links.
pub open spec fn parse_ik(b: Seq<u8>, p: int, size: IndexSize) -> Result<
    (InverseKinematicsView, int),
    Error,
> {
    let w = size.width();
    if !fits(b, p, w + 12) {
        Err(Error::UnexpectedEnd)
    } else {
        match parse_list(link_item(size), b, p + w + 12, pending(le_i32(b, p + w + 8) as i32)) {
            Err(err) => Err(err),
            Ok((links, e)) => Ok(
                (
                    InverseKinematicsView {
                        ik_bone: BoneIndex(index_at(b, p, size)),
                        iterations: le_u32(b, p + w) as u32,
                        limit_angle: f32_at(b, p + w + 4),
                        links,
                    },
                    e,
                ),
            ),
        }
    }
}

/// Length of the bone sub-structures before the IK chain, which are all of fixed size.
pub open spec fn fixed_tail_len(f: BoneFlagSet, w: int) -> int {
    (if f.contains_spec(BoneFlags::Connection) { w } else { 12 }) + (if f.contains_spec(
        BoneFlags::AddRotation,
    ) || f.contains_spec(BoneFlags::AddMovement) {
        w + 4
    } else {
        0
    }) + (if f.contains_spec(BoneFlags::FixedAxis) { 12int } else { 0int }) + (if f.contains_spec(
        BoneFlags::LocalAxis,
    ) {
        24int
    } else {
        0
    }) + (if f.contains_spec(BoneFlags::ExternalParentTransform) { 4int } else { 0int })
}

/// The sub-structures before the IK chain, stored from `c` on, as flag set `f` selects them.
pub open spec fn bone_tail_at(b: Seq<u8>, c: int, f: BoneFlagSet, size: IndexSize) -> BoneTail {
    let w = size.width();
    let a = c + if f.contains_spec(BoneFlags::Connection) { w } else { 12int };
    let has_add = f.contains_spec(BoneFlags::AddRotation) || f.contains_spec(
        BoneFlags::AddMovement,
    );
    let x = a + if has_add { w + 4 } else { 0int };
    let l = x + if f.contains_spec(BoneFlags::FixedAxis) { 12int } else { 0int };
    let t = l + if f.contains_spec(BoneFlags::LocalAxis) { 24int } else { 0int };
    BoneTail {
        connection: if f.contains_spec(BoneFlags::Connection) {
            Connection::Index(BoneIndex(index_at(b, c, size)))
        } else {
            Connection::Position(vec3_at(b, c))
        },
        additional: if has_add {
            Some(Additional { parent: BoneIndex(index_at(b, a, size)), rate: f32_at(b, a + w) })
        } else {
            None
        },
        fixed_axis: if f.contains_spec(BoneFlags::FixedAxis) {
            Some(vec3_at(b, x))
        } else {
            None
        },
        local_axis: if f.contains_spec(BoneFlags::LocalAxis) {
            Some(LocalAxis { x: vec3_at(b, l), z: vec3_at(b, l + 12) })
        } else {
            None
        },
        external_parent_transform: if f.contains_spec(BoneFlags::ExternalParentTransform) {
            Some(le_i32(b, t) as i32)
        } else {
            None
        },
    }
}

/// A bone record at `p` under settings `s`, and the position after it. The sub-structures
/// follow the flag word in a fixed order, each present exactly when its bit is set.
pub open spec fn parse_bone(b: Seq<u8>, p: int, s: Settings) -> Result<(BoneView, int), Error> {
    let size = s.bone_index_size;
    let w = size.width();
    match parse_names(b, p, s.text_encoding) {
        Err(err) => Err(err),
        Ok((local, universal, q)) => if !fits(b, q, w + 18) {
            Err(Error::UnexpectedEnd)
        } else {
            let f = BoneFlagSet { bits: le_u16(b, q + w + 16) as u16 };
            let c = q + w + 18;
            let k = c + fixed_tail_len(f, w);
            if !fits(b, c, fixed_tail_len(f, w)) {
                Err(Error::UnexpectedEnd)
            } else {
                let tail = bone_tail_at(b, c, f, size);
                let core = BoneView {
                    local_name: local,
                    universal_name: universal,
                    position: vec3_at(b, q),
                    parent: BoneIndex(index_at(b, q + 12, size)),
                    transform_level: le_i32(b, q + w + 12) as i32,
                    bone_flags: f,
                    connection: tail.connection,
                    additional: tail.additional,
                    fixed_axis: tail.fixed_axis,
                    local_axis: tail.local_axis,
                    external_parent_transform: tail.external_parent_transform,
                    inverse_kinematics: None,
                };
                if !f.contains_spec(BoneFlags::InverseKinematics) {
                    Ok((core, k))
                } else {
                    match parse_ik(b, k, size) {
                        Err(err) => Err(err),
                        Ok((ik, e)) => Ok((BoneView { inverse_kinematics: Some(ik), ..core }, e)),
                    }
                }
            }
        },
    }
}

/// A bone whose flags hold the inverse-kinematics bit alone decodes an IK chain and none of
/// the other optional sub-structures; its connection is the offset form.
pub proof fn lemma_ik_only(b: Seq<u8>, p: int, s: Settings)
    requires
        parse_bone(b, p, s) is Ok,
        parse_bone(b, p, s)->Ok_0.0.bone_flags.bits == 0x0020,
    ensures
        parse_bone(b, p, s)->Ok_0.0.inverse_kinematics is Some,
        parse_bone(b, p, s)->Ok_0.0.connection is Position,
        parse_bone(b, p, s)->Ok_0.0.additional is None,
        parse_bone(b, p, s)->Ok_0.0.fixed_axis is None,
        parse_bone(b, p, s)->Ok_0.0.local_axis is None,
        parse_bone(b, p, s)->Ok_0.0.external_parent_transform is None,
{
    let f = parse_bone(b, p, s)->Ok_0.0.bone_flags;
    assert(0x0020u16 & 0x0020u16 != 0) by (bit_vector);
    assert(0x0020u16 & 0x0001u16 == 0) by (bit_vector);
    assert(0x0020u16 & 0x0100u16 == 0) by (bit_vector);
    assert(0x0020u16 & 0x0200u16 == 0) by (bit_vector);
    assert(0x0020u16 & 0x0400u16 == 0) by (bit_vector);
    assert(0x0020u16 & 0x0800u16 == 0) by (bit_vector);
    assert(0x0020u16 & 0x2000u16 == 0) by (bit_vector);
    assert(f.contains_spec(BoneFlags::InverseKinematics));
}

pub open spec fn bone_step(s: Settings) -> spec_fn(Seq<u8>, int) -> Result<int, Error> {
    |b: Seq<u8>, p: int|
        match parse_bone(b, p, s) {
            Ok((_, e)) => Ok(e),
            Err(err) => Err(err),
        }
}

impl Source {
    /// Reads one IK link.
    pub fn read_link(&mut self, size: IndexSize) -> (r: Result<IKLink, Error>)
        ensures
            final(self).bytes() == old(self).bytes(),
            match parse_link(old(self).bytes(), old(self).position(), size) {
                Ok((l, e)) => r is Ok && r->Ok_0 == l && final(self).position() == e,
                Err(err) => r is Err && r->Err_0 == err,
            },
    {
        let ik_bone = BoneIndex(self.read_index(size)?);
        let has_limits = self.read_u8()?;
        if has_limits == 0 {
            return Ok(IKLink { ik_bone, limits: None });
        }
        let min = self.read_vec3()?;
        let max = self.read_vec3()?;
        Ok(IKLink { ik_bone, limits: Some(IKLimits { min, max }) })
    }

    /// Reads the fixed-size sub-structures that flag set `f` selects, in their stored order.
    pub fn read_bone_tail(&mut self, f: BoneFlagSet, size: IndexSize) -> (r: Result<BoneTail, Error>)
        ensures
            final(self).bytes() == old(self).bytes(),
            fits(old(self).bytes(), old(self).position(), fixed_tail_len(f, size.width())) ==> r
                == Ok::<BoneTail, Error>(
                bone_tail_at(old(self).bytes(), old(self).position(), f, size),
            ) && final(self).position() == old(self).position() + fixed_tail_len(
                f,
                size.width(),
            ),
            !fits(old(self).bytes(), old(self).position(), fixed_tail_len(f, size.width())) ==> r
                == Err::<BoneTail, Error>(Error::UnexpectedEnd),
    {
        let connection = if f.contains(BoneFlags::Connection) {
            Connection::Index(BoneIndex(self.read_index(size)?))
        } else {
            Connection::Position(self.read_vec3()?)
        };
        let additional = if f.contains(BoneFlags::AddRotation) || f.contains(
            BoneFlags::AddMovement,
        ) {
            let parent = BoneIndex(self.read_index(size)?);
            let rate = self.read_f32()?;
            Some(Additional { parent, rate })
        } else {
            None
        };
        let fixed_axis = if f.contains(BoneFlags::FixedAxis) {
            Some(self.read_vec3()?)
        } else {
            None
        };
        let local_axis = if f.contains(BoneFlags::LocalAxis) {
            let x = self.read_vec3()?;
            let z = self.read_vec3()?;
            Some(LocalAxis { x, z })
        } else {
            None
        };
        let external_parent_transform = if f.contains(BoneFlags::ExternalParentTransform) {
            Some(self.read_i32()?)
        } else {
            None
        };
        Ok(BoneTail { connection, additional, fixed_axis, local_axis, external_parent_transform })
    }

    /// Reads an IK chain with its links.
    #[verifier::loop_isolation(false)]
    pub fn read_ik(&mut self, size: IndexSize) -> (r: Result<InverseKinematics, Error>)
        ensures
            final(self).bytes() == old(self).bytes(),
            match parse_ik(old(self).bytes(), old(self).position(), size) {
                Ok((ik, e)) => r is Ok && r->Ok_0@ == ik && final(self).position() == e,
                Err(err) => r is Err && r->Err_0 == err,
            },
    {
        let ghost b = self.bytes();
        let ik_bone = BoneIndex(self.read_index(size)?);
        let iterations = self.read_u32()?;
        let limit_angle = self.read_f32()?;
        let count = self.read_i32()?;
        let n: u32 = if count < 0 {
            0
        } else {
            count as u32
        };
        let ghost start = self.position();
        let ghost goal = parse_list(link_item(size), b, start, n as nat);
        let mut links: Vec<IKLink> = Vec::new();
        proof {
            assert(Seq::<IKLink>::empty().add(Seq::<IKLink>::empty()) =~= Seq::<IKLink>::empty());
            match goal {
                Ok((xs, e)) => {
                    assert(Seq::<IKLink>::empty().add(xs) =~= xs);
                },
                Err(_) => {},
            }
        }
        let mut i: u32 = 0;
        while i < n
            invariant
                self.bytes() == b,
                i <= n,
                goal == list_after(link_item(size), b, links@, self.position(), (n - i) as nat),
            decreases n - i,
        {
            proof {
                lemma_list_step(link_item(size), b, links@, self.position(), (n - i) as nat);
            }
            let l = self.read_link(size)?;
            links.push(l);
            i = i + 1;
        }
        proof {
            lemma_list_done(link_item(size), b, links@, self.position());
        }
        Ok(InverseKinematics { ik_bone, iterations, limit_angle, links })
    }
}

/// Reader of the bone section.
pub struct BoneReader {
    pub settings: Settings,
    pub count: i32,
    pub remaining: i32,
    pub read: Source,
}

impl BoneReader {
    /// Drains the materials `prev` has not decoded, then opens the bone section.
    pub fn new(prev: MaterialReader) -> (r: Result<BoneReader, Error>)
        ensures
            match next_section(
                material_step(prev.settings),
                prev.read.bytes(),
                prev.read.position(),
                pending(prev.remaining),
            ) {
                Ok((c, e)) => r is Ok && r->Ok_0.settings == prev.settings && r->Ok_0.count == c
                    && r->Ok_0.remaining == remaining_of(c) && r->Ok_0.read.bytes()
                    == prev.read.bytes() && r->Ok_0.read.position() == e,
                Err(err) => r is Err && r->Err_0 == err,
            },
    {
        let ghost s = prev.settings;
        let ghost b = prev.read.bytes();
        let ghost goal = next_section(
            material_step(s),
            b,
            prev.read.position(),
            pending(prev.remaining),
        );
        let mut v = prev;
        while v.remaining > 0
            invariant
                s == prev.settings,
                b == prev.read.bytes(),
                goal == next_section(
                    material_step(prev.settings),
                    prev.read.bytes(),
                    prev.read.position(),
                    pending(prev.remaining),
                ),
                v.settings == s,
                v.read.bytes() == b,
                goal == next_section(material_step(s), b, v.read.position(), pending(v.remaining)),
            decreases v.remaining,
        {
            proof {
                lemma_drain_unfold(material_step(s), b, v.read.position(), pending(v.remaining));
            }
            v.next()?;
        }
        let count = v.read.read_i32()?;
        Ok(
            BoneReader {
                settings: v.settings,
                count,
                remaining: if count < 0 {
                    0
                } else {
                    count
                },
                read: v.read,
            },
        )
    }

    /// Decodes the next bone, or gives `None` once the section is used up.
    pub fn next(&mut self) -> (r: Result<Option<Bone>, Error>)
        ensures
            final(self).settings == old(self).settings,
            final(self).count == old(self).count,
            final(self).read.bytes() == old(self).read.bytes(),
            old(self).remaining <= 0 ==> r is Ok && r->Ok_0 is None && *final(self) == *old(self),
            old(self).remaining > 0 ==> match parse_bone(
                old(self).read.bytes(),
                old(self).read.position(),
                old(self).settings,
            ) {
                Ok((v, e)) => r is Ok && r->Ok_0 is Some && r->Ok_0->Some_0@ == v
                    && final(self).read.position() == e && final(self).remaining == old(
                    self,
                ).remaining - 1,
                Err(err) => r is Err && r->Err_0 == err,
            },
            old(self).remaining > 0 ==> match bone_step(old(self).settings)(
                old(self).read.bytes(),
                old(self).read.position(),
            ) {
                Ok(e) => r is Ok && final(self).read.position() == e && final(self).remaining
                    == old(self).remaining - 1,
                Err(err) => r is Err && r->Err_0 == err,
            },
    {
        if self.remaining <= 0 {
            return Ok(None);
        }
        let size = self.settings.bone_index_size;
        let (local_name, universal_name) = self.read.read_names(self.settings.text_encoding)?;
        let position = self.read.read_vec3()?;
        let parent = BoneIndex(self.read.read_index(size)?);
        let transform_level = self.read.read_i32()?;
        let bone_flags = BoneFlagSet { bits: self.read.read_u16()? };
        let tail = self.read.read_bone_tail(bone_flags, size)?;
        let inverse_kinematics = if bone_flags.contains(BoneFlags::InverseKinematics) {
            Some(self.read.read_ik(size)?)
        } else {
            None
        };
        self.remaining = self.remaining - 1;
        Ok(
            Some(
                Bone {
                    local_name,
                    universal_name,
                    position,
                    parent,
                    transform_level,
                    bone_flags,
                    connection: tail.connection,
                    additional: tail.additional,
                    fixed_axis: tail.fixed_axis,
                    local_axis: tail.local_axis,
                    external_parent_transform: tail.external_parent_transform,
                    inverse_kinematics,
                },
            ),
        )
    }
}

} // verus!
