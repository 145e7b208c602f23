//! The joint section: constraints between pairs of rigid bodies; the last section of a file.
use vstd::prelude::*;

use crate::error::Error;
use crate::geometry::{vec3_at, Vec3};
use crate::header::Settings;
use crate::index::{index_at, RigidBodyIndex};
use crate::rigid_body::{rigid_body_step, RigidBodyReader};
use crate::section::{lemma_drain_unfold, next_section, pending, remaining_of};
use crate::source::{fits, Source};
use crate::text::{lemma_names_prefix, parse_names};

verus! {

#[derive(Clone, Copy, Debug, PartialEq, Eq, Structural)]
pub enum JointType {
    SpringFree,
    Free,
    P2P,
    ConeTwist,
    Slider,
    Hinge,
}

pub open spec fn joint_type_of(v: u8) -> Option<JointType> {
    if v == 0 {
        Some(JointType::SpringFree)
    } else if v == 1 {
        Some(JointType::Free)
    } else if v == 2 {
        Some(JointType::P2P)
    } else if v == 3 {
        Some(JointType::ConeTwist)
    } else if v == 4 {
        Some(JointType::Slider)
    } else if v == 5 {
        Some(JointType::Hinge)
    } else {
        None
    }
}

impl JointType {
    /// The joint type a byte names; any other byte fails with the invalid-joint-type error.
    pub fn try_from(value: u8) -> (r: Result<JointType, Error>)
        ensures
            match joint_type_of(value) {
                Some(t) => r == Ok::<JointType, Error>(t),
                None => r == Err::<JointType, Error>(Error::InvalidJointType(value)),
            },
    {
        match value {
            0u8 => Ok(JointType::SpringFree),
            1u8 => Ok(JointType::Free),
            2u8 => Ok(JointType::P2P),
            3u8 => Ok(JointType::ConeTwist),
            4u8 => Ok(JointType::Slider),
            5u8 => Ok(JointType::Hinge),
            e => Err(Error::InvalidJointType(e)),
        }
    }
}

#[derive(Debug)]
pub struct Joint {
    pub local_name: String,
    pub universal_name: String,
    pub joint_type: JointType,
    pub rigid_body_a: RigidBodyIndex,
    pub rigid_body_b: RigidBodyIndex,
    pub position: Vec3,
    pub rotation: Vec3,
    pub position_min: Vec3,
    pub position_max: Vec3,
    pub rotation_min: Vec3,
    pub rotation_max: Vec3,
    pub position_spring: Vec3,
    pub rotation_spring: Vec3,
}

pub struct JointView {
    pub local_name: Seq<char>,
    pub universal_name: Seq<char>,
    pub joint_type: JointType,
    pub rigid_body_a: RigidBodyIndex,
    pub rigid_body_b: RigidBodyIndex,
    pub position: Vec3,
    pub rotation: Vec3,
    pub position_min: Vec3,
    pub position_max: Vec3,
    pub rotation_min: Vec3,
    pub rotation_max: Vec3,
    pub position_spring: Vec3,
    pub rotation_spring: Vec3,
}

impl View for Joint {
    type V = JointView;

    open spec fn view(&self) -> JointView {
        JointView {
            local_name: self.local_name@,
            universal_name: self.universal_name@,
            joint_type: self.joint_type,
            rigid_body_a: self.rigid_body_a,
            rigid_body_b: self.rigid_body_b,
            position: self.position,
            rotation: self.rotation,
            position_min: self.position_min,
            position_max: self.position_max,
            rotation_min: self.rotation_min,
            rotation_max: self.rotation_max,
            position_spring: self.position_spring,
            rotation_spring: self.rotation_spring,
        }
    }
}

/// A joint record at `p` under settings `s`, and the position after it. The type byte is
/// checked as soon as it is read.
pub open spec fn parse_joint(b: Seq<u8>, p: int, s: Settings) -> Result<(JointView, int), Error> {
    let size = s.rigid_body_index_size;
    let w = size.width();
    match parse_names(b, p, s.text_encoding) {
        Err(err) => Err(err),
        Ok((local, universal, q)) => if !fits(b, q, 1) {
            Err(Error::UnexpectedEnd)
        } else if joint_type_of(b[q]) is None {
            Err(Error::InvalidJointType(b[q]))
        } else if !fits(b, q + 1, 2 * w + 96) {
            Err(Error::UnexpectedEnd)
        } else {
            let g = q + 1 + 2 * w;
            Ok(
                (
                    JointView {
                        local_name: local,
                        universal_name: universal,
                        joint_type: joint_type_of(b[q])->Some_0,
                        rigid_body_a: RigidBodyIndex(index_at(b, q + 1, size)),
                        rigid_body_b: RigidBodyIndex(index_at(b, q + 1 + w, size)),
                        position: vec3_at(b, g),
                        rotation: vec3_at(b, g + 12),
                        position_min: vec3_at(b, g + 24),
                        position_max: vec3_at(b, g + 36),
                        rotation_min: vec3_at(b, g + 48),
                        rotation_max: vec3_at(b, g + 60),
                        position_spring: vec3_at(b, g + 72),
                        rotation_spring: vec3_at(b, g + 84),
                    },
                    g + 96,
                ),
            )
        },
    }
}

/// A joint whose type byte names no joint type fails with the invalid-joint-type error
/// carrying that byte. The failure is confined to the record: any input `b2` that agrees
/// with `b` up to and including the type byte fails the same way, whatever follows.
pub proof fn lemma_invalid_joint_type(b: Seq<u8>, b2: Seq<u8>, p: int, s: Settings)
    requires
        parse_names(b, p, s.text_encoding) is Ok,
        fits(b, parse_names(b, p, s.text_encoding)->Ok_0.2, 1),
        b[parse_names(b, p, s.text_encoding)->Ok_0.2] > 5,
        parse_names(b, p, s.text_encoding)->Ok_0.2 < b2.len(),
        b2.subrange(0, parse_names(b, p, s.text_encoding)->Ok_0.2 + 1) == b.subrange(
            0,
            parse_names(b, p, s.text_encoding)->Ok_0.2 + 1,
        ),
    ensures
        parse_joint(b, p, s) == Err::<(JointView, int), Error>(
            Error::InvalidJointType(b[parse_names(b, p, s.text_encoding)->Ok_0.2]),
        ),
        parse_joint(b2, p, s) == parse_joint(b, p, s),
{
    let q = parse_names(b, p, s.text_encoding)->Ok_0.2;
    assert(b.subrange(0, q) =~= b.subrange(0, q + 1).subrange(0, q));
    assert(b2.subrange(0, q) =~= b2.subrange(0, q + 1).subrange(0, q));
    lemma_names_prefix(b, b2, p, s.text_encoding);
    assert(b.subrange(0, q + 1)[q] == b2.subrange(0, q + 1)[q]);
}

/// Reader of the joint section.
pub struct JointReader {
    pub settings: Settings,
    pub count: i32,
    pub remaining: i32,
    pub read: Source,
}

impl JointReader {
    /// Drains the rigid bodies `prev` has not decoded, then opens the joint section.
    pub fn new(prev: RigidBodyReader) -> (r: Result<JointReader, Error>)
        ensures
            match next_section(
                rigid_body_step(prev.settings),
                prev.read.bytes(),
                prev.read.position(),
                pending(prev.remaining),
            ) {
                Ok((c, e)) => r is Ok && r->Ok_0.settings == prev.settings && r->Ok_0.count == c
                    && r->Ok_0.remaining == remaining_of(c) && r->Ok_0.read.bytes()
                    == prev.read.bytes() && r->Ok_0.read.position() == e,
                Err(err) => r is Err && r->Err_0 == err,
            },
    {
        let ghost s = prev.settings;
        let ghost b = prev.read.bytes();
        let ghost goal = next_section(
            rigid_body_step(s),
            b,
            prev.read.position(),
            pending(prev.remaining),
        );
        let mut v = prev;
        while v.remaining > 0
            invariant
                s == prev.settings,
                b == prev.read.bytes(),
                goal == next_section(
                    rigid_body_step(prev.settings),
                    prev.read.bytes(),
                    prev.read.position(),
                    pending(prev.remaining),
                ),
                v.settings == s,
                v.read.bytes() == b,
                goal == next_section(rigid_body_step(s), b, v.read.position(), pending(v.remaining)),
            decreases v.remaining,
        {
            proof {
                lemma_drain_unfold(rigid_body_step(s), b, v.read.position(), pending(v.remaining));
            }
            v.next()?;
        }
        let count = v.read.read_i32()?;
        Ok(
            JointReader {
                settings: v.settings,
                count,
                remaining: if count < 0 {
                    0
                } else {
                    count
                },
                read: v.read,
            },
        )
    }

    /// Decodes the next joint, or gives `None` once the section is used up.
    pub fn next(&mut self) -> (r: Result<Option<Joint>, Error>)
        ensures
            final(self).settings == old(self).settings,
            final(self).count == old(self).count,
            final(self).read.bytes() == old(self).read.bytes(),
            old(self).remaining <= 0 ==> r is Ok && r->Ok_0 is None && *final(self) == *old(self),
            old(self).remaining > 0 ==> match parse_joint(
                old(self).read.bytes(),
                old(self).read.position(),
                old(self).settings,
            ) {
                Ok((j, e)) => r is Ok && r->Ok_0 is Some && r->Ok_0->Some_0@ == j
                    && final(self).read.position() == e && final(self).remaining == old(
                    self,
                ).remaining - 1,
                Err(err) => r is Err && r->Err_0 == err,
            },
    {
        if self.remaining <= 0 {
            return Ok(None);
        }
        let size = self.settings.rigid_body_index_size;
        let (local_name, universal_name) = self.read.read_names(self.settings.text_encoding)?;
        let joint_type = JointType::try_from(self.read.read_u8()?)?;
        let rigid_body_a = RigidBodyIndex(self.read.read_index(size)?);
        let rigid_body_b = RigidBodyIndex(self.read.read_index(size)?);
        let position = self.read.read_vec3()?;
        let rotation = self.read.read_vec3()?;
        let position_min = self.read.read_vec3()?;
        let position_max = self.read.read_vec3()?;
        let rotation_min = self.read.read_vec3()?;
        let rotation_max = self.read.read_vec3()?;
        let position_spring = self.read.read_vec3()?;
        let rotation_spring = self.read.read_vec3()?;
        self.remaining = self.remaining - 1;
        Ok(
            Some(
                Joint {
                    local_name,
                    universal_name,
                    joint_type,
                    rigid_body_a,
                    rigid_body_b,
                    position,
                    rotation,
                    position_min,
                    position_max,
                    rotation_min,
                    rotation_max,
                    position_spring,
                    rotation_spring,
                },
            ),
        )
    }

    /// A sequence over the joints still unread; decoding one advances this reader.
    pub fn iter(&mut self) -> (r: JointIterator<'_>)
        ensures
            *r.reader == *old(self),
            *final(self) == *final(r.reader),
    {
        JointIterator { reader: self }
    }
}

/// Yields each remaining joint in turn, or the error that stopped decoding.
pub struct JointIterator<'a> {
    pub reader: &'a mut JointReader,
}

impl<'a> JointIterator<'a> {
    /// `None` once the section is used up; otherwise the next decode result.
    pub fn next(&mut self) -> (r: Option<Result<Joint, Error>>)
        ensures
            final(self).reader.settings == old(self).reader.settings,
            final(self).reader.count == old(self).reader.count,
            final(self).reader.read.bytes() == old(self).reader.read.bytes(),
            old(self).reader.remaining <= 0 ==> r is None && *final(self).reader == *old(
                self,
            ).reader,
            old(self).reader.remaining > 0 ==> match parse_joint(
                old(self).reader.read.bytes(),
                old(self).reader.read.position(),
                old(self).reader.settings,
            ) {
                Ok((j, e)) => r is Some && r->Some_0 is Ok && r->Some_0->Ok_0@ == j
                    && final(self).reader.read.position() == e && final(self).reader.remaining
                    == old(self).reader.remaining - 1,
                Err(err) => r is Some && r->Some_0 is Err && r->Some_0->Err_0 == err,
            },
    {
        match self.reader.next() {
            Ok(Some(j)) => Some(Ok(j)),
            Ok(None) => None,
            Err(e) => Some(Err(e)),
        }
    }
}

} // verus!
