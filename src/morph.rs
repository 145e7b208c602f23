//! The morph section: named sets of offsets of one kind each.
use vstd::prelude::*;

use crate::bone::{bone_step, BoneReader};
use crate::error::Error;
use crate::geometry::{f32_at, vec3_at, vec4_at, Vec3, Vec4};
use crate::header::Settings;
use crate::index::{index_at, MaterialIndex, MorphIndex, RigidBodyIndex, VertexIndex, BoneIndex};
use crate::section::{
    lemma_drain_unfold, lemma_list_done, lemma_list_step, list_after, next_section,
    parse_list, pending, remaining_of,
};
use crate::source::{fits, le_i32, Source};
use crate::text::parse_names;

verus! {

/// What a morph's offsets act on; selected by one byte.
#[derive(Clone, Copy, Debug, PartialEq, Eq, Structural)]
pub enum MorphKind {
    Group,
    Vertex,
    Bone,
    Uv,
    AdditionalUv1,
    AdditionalUv2,
    AdditionalUv3,
    AdditionalUv4,
    Material,
    Flip,
    Impulse,
}

pub open spec fn morph_kind_of(t: u8) -> Option<MorphKind> {
    if t == 0 {
        Some(MorphKind::Group)
    } else if t == 1 {
        Some(MorphKind::Vertex)
    } else if t == 2 {
        Some(MorphKind::Bone)
    } else if t == 3 {
        Some(MorphKind::Uv)
    } else if t == 4 {
        Some(MorphKind::AdditionalUv1)
    } else if t == 5 {
        Some(MorphKind::AdditionalUv2)
    } else if t == 6 {
        Some(MorphKind::AdditionalUv3)
    } else if t == 7 {
        Some(MorphKind::AdditionalUv4)
    } else if t == 8 {
        Some(MorphKind::Material)
    } else if t == 9 {
        Some(MorphKind::Flip)
    } else if t == 10 {
        Some(MorphKind::Impulse)
    } else {
        None
    }
}

impl MorphKind {
    /// The kind a byte names; any other byte fails with the invalid-morph-type error.
    pub fn from_byte(t: u8) -> (r: Result<MorphKind, Error>)
        ensures
            match morph_kind_of(t) {
                Some(k) => r == Ok::<MorphKind, Error>(k),
                None => r == Err::<MorphKind, Error>(Error::InvalidMorphType(t)),
            },
    {
        match t {
            0u8 => Ok(MorphKind::Group),
            1u8 => Ok(MorphKind::Vertex),
            2u8 => Ok(MorphKind::Bone),
            3u8 => Ok(MorphKind::Uv),
            4u8 => Ok(MorphKind::AdditionalUv1),
            5u8 => Ok(MorphKind::AdditionalUv2),
            6u8 => Ok(MorphKind::AdditionalUv3),
            7u8 => Ok(MorphKind::AdditionalUv4),
            8u8 => Ok(MorphKind::Material),
            9u8 => Ok(MorphKind::Flip),
            10u8 => Ok(MorphKind::Impulse),
            e => Err(Error::InvalidMorphType(e)),
        }
    }
}

/// A weighted reference to another morph (group and flip morphs).
#[derive(Clone, Copy, Debug, PartialEq, Eq, Structural)]
pub struct MorphWeight {
    pub morph: MorphIndex,
    pub rate: u32,
}

#[derive(Clone, Copy, Debug, PartialEq, Eq, Structural)]
pub struct VertexOffset {
    pub vertex: VertexIndex,
    pub translation: Vec3,
}

#[derive(Clone, Copy, Debug, PartialEq, Eq, Structural)]
pub struct BoneOffset {
    pub bone: BoneIndex,
    pub translation: Vec3,
    pub rotation: Vec4,
}

#[derive(Clone, Copy, Debug, PartialEq, Eq, Structural)]
pub struct UvOffset {
    pub vertex: VertexIndex,
    pub value: Vec4,
}

#[derive(Clone, Copy, Debug, PartialEq, Eq, Structural)]
pub struct MaterialOffset {
    pub material: MaterialIndex,
    /// 0 multiplies, 1 adds.
    pub method: u8,
    pub diffuse: Vec4,
    pub specular: Vec3,
    pub specular_strength: u32,
    pub ambient: Vec3,
    pub edge_color: Vec4,
    pub edge_size: u32,
    pub texture_tint: Vec4,
    pub environment_tint: Vec4,
    pub toon_tint: Vec4,
}

#[derive(Clone, Copy, Debug, PartialEq, Eq, Structural)]
pub struct ImpulseOffset {
    pub rigid_body: RigidBodyIndex,
    pub local: u8,
    pub velocity: Vec3,
    pub torque: Vec3,
}

#[derive(Clone, Copy, Debug, PartialEq, Eq, Structural)]
pub enum MorphOffset {
    Group(MorphWeight),
    Vertex(VertexOffset),
    Bone(BoneOffset),
    Uv(UvOffset),
    Material(MaterialOffset),
    Flip(MorphWeight),
    Impulse(ImpulseOffset),
}

/// Byte length of one offset of kind `k`.
pub open spec fn offset_len(k: MorphKind, s: Settings) -> int {
    match k {
        MorphKind::Group | MorphKind::Flip => s.morph_index_size.width() + 4,
        MorphKind::Vertex => s.vertex_index_size.width() + 12,
        MorphKind::Bone => s.bone_index_size.width() + 28,
        MorphKind::Material => s.material_index_size.width() + 113,
        MorphKind::Impulse => s.rigid_body_index_size.width() + 25,
        _ => s.vertex_index_size.width() + 16,
    }
}

/// The offset of kind `k` stored at `p`.
pub open spec fn offset_at(b: Seq<u8>, p: int, k: MorphKind, s: Settings) -> MorphOffset {
    match k {
        MorphKind::Group => MorphOffset::Group(
            MorphWeight {
                morph: MorphIndex(index_at(b, p, s.morph_index_size)),
                rate: f32_at(b, p + s.morph_index_size.width()),
            },
        ),
        MorphKind::Flip => MorphOffset::Flip(
            MorphWeight {
                morph: MorphIndex(index_at(b, p, s.morph_index_size)),
                rate: f32_at(b, p + s.morph_index_size.width()),
            },
        ),
        MorphKind::Vertex => MorphOffset::Vertex(
            VertexOffset {
                vertex: VertexIndex(index_at(b, p, s.vertex_index_size)),
                translation: vec3_at(b, p + s.vertex_index_size.width()),
            },
        ),
        MorphKind::Bone => MorphOffset::Bone(
            BoneOffset {
                bone: BoneIndex(index_at(b, p, s.bone_index_size)),
                translation: vec3_at(b, p + s.bone_index_size.width()),
                rotation: vec4_at(b, p + s.bone_index_size.width() + 12),
            },
        ),
        MorphKind::Material => {
            let q = p + s.material_index_size.width() + 1;
            MorphOffset::Material(
                MaterialOffset {
                    material: MaterialIndex(index_at(b, p, s.material_index_size)),
                    method: b[q - 1],
                    diffuse: vec4_at(b, q),
                    specular: vec3_at(b, q + 16),
                    specular_strength: f32_at(b, q + 28),
                    ambient: vec3_at(b, q + 32),
                    edge_color: vec4_at(b, q + 44),
                    edge_size: f32_at(b, q + 60),
                    texture_tint: vec4_at(b, q + 64),
                    environment_tint: vec4_at(b, q + 80),
                    toon_tint: vec4_at(b, q + 96),
                },
            )
        },
        MorphKind::Impulse => {
            let q = p + s.rigid_body_index_size.width() + 1;
            MorphOffset::Impulse(
                ImpulseOffset {
                    rigid_body: RigidBodyIndex(index_at(b, p, s.rigid_body_index_size)),
                    local: b[q - 1],
                    velocity: vec3_at(b, q),
                    torque: vec3_at(b, q + 12),
                },
            )
        },
        _ => MorphOffset::Uv(
            UvOffset {
                vertex: VertexIndex(index_at(b, p, s.vertex_index_size)),
                value: vec4_at(b, p + s.vertex_index_size.width()),
            },
        ),
    }
}

pub open spec fn parse_offset(b: Seq<u8>, p: int, k: MorphKind, s: Settings) -> Result<
    (MorphOffset, int),
    Error,
> {
    if fits(b, p, offset_len(k, s)) {
        Ok((offset_at(b, p, k, s), p + offset_len(k, s)))
    } else {
        Err(Error::UnexpectedEnd)
    }
}

pub open spec fn offset_item(k: MorphKind, s: Settings) -> spec_fn(Seq<u8>, int) -> Result<
    (MorphOffset, int),
    Error,
> {
    |b: Seq<u8>, p: int| parse_offset(b, p, k, s)
}

#[derive(Debug)]
pub struct Morph {
    pub local_name: String,
    pub universal_name: String,
    /// Which editor panel the morph belongs to.
    pub panel: u8,
    pub kind: MorphKind,
    pub offsets: Vec<MorphOffset>,
}

pub struct MorphView {
    pub local_name: Seq<char>,
    pub universal_name: Seq<char>,
    pub panel: u8,
    pub kind: MorphKind,
    pub offsets: Seq<MorphOffset>,
}

impl View for Morph {
    type V = MorphView;

    open spec fn view(&self) -> MorphView {
        MorphView {
            local_name: self.local_name@,
            universal_name: self.universal_name@,
            panel: self.panel,
            kind: self.kind,
            offsets: self.offsets@,
        }
    }
}

/// A morph record at `p`: names, panel byte, kind byte, then a count-prefixed list of
/// offsets of that kind; a negative count holds none.
pub open spec fn parse_morph(b: Seq<u8>, p: int, s: Settings) -> Result<(MorphView, int), Error> {
    match parse_names(b, p, s.text_encoding) {
        Err(err) => Err(err),
        Ok((local, universal, q)) => if !fits(b, q, 2) {
            Err(Error::UnexpectedEnd)
        } else {
            match morph_kind_of(b[q + 1]) {
                None => Err(Error::InvalidMorphType(b[q + 1])),
                Some(k) => if !fits(b, q + 2, 4) {
                    Err(Error::UnexpectedEnd)
                } else {
                    match parse_list(
                        offset_item(k, s),
                        b,
                        q + 6,
                        pending(le_i32(b, q + 2) as i32),
                    ) {
                        Err(err) => Err(err),
                        Ok((offsets, e)) => Ok(
                            (
                                MorphView {
                                    local_name: local,
                                    universal_name: universal,
                                    panel: b[q],
                                    kind: k,
                                    offsets,
                                },
                                e,
                            ),
                        ),
                    }
                },
            }
        },
    }
}

pub open spec fn morph_step(s: Settings) -> spec_fn(Seq<u8>, int) -> Result<int, Error> {
    |b: Seq<u8>, p: int|
        match parse_morph(b, p, s) {
            Ok((_, e)) => Ok(e),
            Err(err) => Err(err),
        }
}

impl Source {
    /// Reads one offset of kind `k`.
    pub fn read_offset(&mut self, k: MorphKind, s: Settings) -> (r: Result<MorphOffset, Error>)
        ensures
            final(self).bytes() == old(self).bytes(),
            match parse_offset(old(self).bytes(), old(self).position(), k, s) {
                Ok((o, e)) => r == Ok::<MorphOffset, Error>(o) && final(self).position() == e,
                Err(err) => r == Err::<MorphOffset, Error>(err),
            },
    {
        match k {
            MorphKind::Group | MorphKind::Flip => {
                let morph = MorphIndex(self.read_index(s.morph_index_size)?);
                let rate = self.read_f32()?;
                let w = MorphWeight { morph, rate };
                Ok(
                    if k == MorphKind::Group {
                        MorphOffset::Group(w)
                    } else {
                        MorphOffset::Flip(w)
                    },
                )
            },
            MorphKind::Vertex => {
                let vertex = VertexIndex(self.read_index(s.vertex_index_size)?);
                let translation = self.read_vec3()?;
                Ok(MorphOffset::Vertex(VertexOffset { vertex, translation }))
            },
            MorphKind::Bone => {
                let bone = BoneIndex(self.read_index(s.bone_index_size)?);
                let translation = self.read_vec3()?;
                let rotation = self.read_vec4()?;
                Ok(MorphOffset::Bone(BoneOffset { bone, translation, rotation }))
            },
            MorphKind::Material => {
                let material = MaterialIndex(self.read_index(s.material_index_size)?);
                let method = self.read_u8()?;
                let diffuse = self.read_vec4()?;
                let specular = self.read_vec3()?;
                let specular_strength = self.read_f32()?;
                let ambient = self.read_vec3()?;
                let edge_color = self.read_vec4()?;
                let edge_size = self.read_f32()?;
                let texture_tint = self.read_vec4()?;
                let environment_tint = self.read_vec4()?;
                let toon_tint = self.read_vec4()?;
                Ok(
                    MorphOffset::Material(
                        MaterialOffset {
                            material,
                            method,
                            diffuse,
                            specular,
                            specular_strength,
                            ambient,
                            edge_color,
                            edge_size,
                            texture_tint,
                            environment_tint,
                            toon_tint,
                        },
                    ),
                )
            },
            MorphKind::Impulse => {
                let rigid_body = RigidBodyIndex(self.read_index(s.rigid_body_index_size)?);
                let local = self.read_u8()?;
                let velocity = self.read_vec3()?;
                let torque = self.read_vec3()?;
                Ok(MorphOffset::Impulse(ImpulseOffset { rigid_body, local, velocity, torque }))
            },
            _ => {
                let vertex = VertexIndex(self.read_index(s.vertex_index_size)?);
                let value = self.read_vec4()?;
                Ok(MorphOffset::Uv(UvOffset { vertex, value }))
            },
        }
    }
}

/// Reader of the morph section.
pub struct MorphReader {
    pub settings: Settings,
    pub count: i32,
    pub remaining: i32,
    pub read: Source,
}

impl MorphReader {
    /// Drains the bones `prev` has not decoded, then opens the morph section.
    pub fn new(prev: BoneReader) -> (r: Result<MorphReader, Error>)
        ensures
            match next_section(
                bone_step(prev.settings),
                prev.read.bytes(),
                prev.read.position(),
                pending(prev.remaining),
            ) {
                Ok((c, e)) => r is Ok && r->Ok_0.settings == prev.settings && r->Ok_0.count == c
                    && r->Ok_0.remaining == remaining_of(c) && r->Ok_0.read.bytes()
                    == prev.read.bytes() && r->Ok_0.read.position() == e,
                Err(err) => r is Err && r->Err_0 == err,
            },
    {
        let ghost s = prev.settings;
        let ghost b = prev.read.bytes();
        let ghost goal = next_section(bone_step(s), b, prev.read.position(), pending(prev.remaining));
        let mut v = prev;
        while v.remaining > 0
            invariant
                s == prev.settings,
                b == prev.read.bytes(),
                goal == next_section(
                    bone_step(prev.settings),
                    prev.read.bytes(),
                    prev.read.position(),
                    pending(prev.remaining),
                ),
                v.settings == s,
                v.read.bytes() == b,
                goal == next_section(bone_step(s), b, v.read.position(), pending(v.remaining)),
            decreases v.remaining,
        {
            proof {
                lemma_drain_unfold(bone_step(s), b, v.read.position(), pending(v.remaining));
            }
            v.next()?;
        }
        let count = v.read.read_i32()?;
        Ok(
            MorphReader {
                settings: v.settings,
                count,
                remaining: if count < 0 {
                    0
                } else {
                    count
                },
                read: v.read,
            },
        )
    }

    /// Decodes the next morph, or gives `None` once the section is used up.
    #[verifier::loop_isolation(false)]
    pub fn next(&mut self) -> (r: Result<Option<Morph>, Error>)
        ensures
            final(self).settings == old(self).settings,
            final(self).count == old(self).count,
            final(self).read.bytes() == old(self).read.bytes(),
            old(self).remaining <= 0 ==> r is Ok && r->Ok_0 is None && *final(self) == *old(self),
            old(self).remaining > 0 ==> match parse_morph(
                old(self).read.bytes(),
                old(self).read.position(),
                old(self).settings,
            ) {
                Ok((m, e)) => r is Ok && r->Ok_0 is Some && r->Ok_0->Some_0@ == m
                    && final(self).read.position() == e && final(self).remaining == old(
                    self,
                ).remaining - 1,
                Err(err) => r is Err && r->Err_0 == err,
            },
            old(self).remaining > 0 ==> match morph_step(old(self).settings)(
                old(self).read.bytes(),
                old(self).read.position(),
            ) {
                Ok(e) => r is Ok && final(self).read.position() == e && final(self).remaining
                    == old(self).remaining - 1,
                Err(err) => r is Err && r->Err_0 == err,
            },
    {
        if self.remaining <= 0 {
            return Ok(None);
        }
        let s = self.settings;
        let ghost b = self.read.bytes();
        let (local_name, universal_name) = self.read.read_names(s.text_encoding)?;
        let panel = self.read.read_u8()?;
        let kind = MorphKind::from_byte(self.read.read_u8()?)?;
        let count = self.read.read_i32()?;
        let n: u32 = if count < 0 {
            0
        } else {
            count as u32
        };
        let ghost start = self.read.position();
        let ghost goal = parse_list(offset_item(kind, s), b, start, n as nat);
        let mut offsets: Vec<MorphOffset> = Vec::new();
        proof {
            match goal {
                Ok((xs, e)) => {
                    assert(Seq::<MorphOffset>::empty().add(xs) =~= xs);
                },
                Err(_) => {},
            }
        }
        let mut i: u32 = 0;
        while i < n
            invariant
                self.read.bytes() == b,
                self.settings == s,
                self.count == old(self).count,
                self.remaining == old(self).remaining,
                self.remaining > 0,
                i <= n,
                goal == list_after(offset_item(kind, s), b, offsets@, self.read.position(), (n - i) as nat),
            decreases n - i,
        {
            proof {
                lemma_list_step(offset_item(kind, s), b, offsets@, self.read.position(), (n - i) as nat);
            }
            let o = self.read.read_offset(kind, s)?;
            offsets.push(o);
            i = i + 1;
        }
        proof {
            lemma_list_done(offset_item(kind, s), b, offsets@, self.read.position());
        }
        self.remaining = self.remaining - 1;
        Ok(Some(Morph { local_name, universal_name, panel, kind, offsets }))
    }
}

} // verus!
