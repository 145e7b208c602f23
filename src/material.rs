//! The material section.
use vstd::prelude::*;

use crate::error::Error;
use crate::geometry::{f32_at, vec3_at, vec4_at, Vec3, Vec4};
use crate::header::Settings;
use crate::index::{index_at, IndexSize, TextureIndex};
use crate::section::{lemma_drain_unfold, next_section, pending, remaining_of};
use crate::source::{fits, le_i32, Source};
use crate::text::{parse_names, parse_text};
use crate::texture::{texture_step, TextureReader};

verus! {

/// Where a material's toon shading comes from.
#[derive(Clone, Copy, Debug, PartialEq, Eq, Structural)]
pub enum Toon {
    /// A texture of the texture section.
    Texture(TextureIndex),
    /// One of the ten shared toon textures, by number.
    Internal(u8),
}

#[derive(Debug)]
pub struct Material {
    pub local_name: String,
    pub universal_name: String,
    pub diffuse: Vec4,
    pub specular: Vec3,
    pub specular_strength: u32,
    pub ambient: Vec3,
    pub draw_flags: u8,
    pub edge_color: Vec4,
    pub edge_scale: u32,
    pub texture: TextureIndex,
    pub environment: TextureIndex,
    pub environment_blend_mode: u8,
    pub toon: Toon,
    pub metadata: String,
    /// Number of surface vertex references drawn with this material.
    pub surface_count: i32,
}

pub struct MaterialView {
    pub local_name: Seq<char>,
    pub universal_name: Seq<char>,
    pub diffuse: Vec4,
    pub specular: Vec3,
    pub specular_strength: u32,
    pub ambient: Vec3,
    pub draw_flags: u8,
    pub edge_color: Vec4,
    pub edge_scale: u32,
    pub texture: TextureIndex,
    pub environment: TextureIndex,
    pub environment_blend_mode: u8,
    pub toon: Toon,
    pub metadata: Seq<char>,
    pub surface_count: i32,
}

impl View for Material {
    type V = MaterialView;

    open spec fn view(&self) -> MaterialView {
        MaterialView {
            local_name: self.local_name@,
            universal_name: self.universal_name@,
            diffuse: self.diffuse,
            specular: self.specular,
            specular_strength: self.specular_strength,
            ambient: self.ambient,
            draw_flags: self.draw_flags,
            edge_color: self.edge_color,
            edge_scale: self.edge_scale,
            texture: self.texture,
            environment: self.environment,
            environment_blend_mode: self.environment_blend_mode,
            toon: self.toon,
            metadata: self.metadata@,
            surface_count: self.surface_count,
        }
    }
}

/// A toon reference at `p`: a tag byte, then a texture reference (tag 0) or a shared
/// toon number (tag 1).
pub open spec fn parse_toon(b: Seq<u8>, p: int, size: IndexSize) -> Result<(Toon, int), Error> {
    if !fits(b, p, 1) {
        Err(Error::UnexpectedEnd)
    } else if b[p] == 0 {
        if fits(b, p + 1, size.width()) {
            Ok((Toon::Texture(TextureIndex(index_at(b, p + 1, size))), p + 1 + size.width()))
        } else {
            Err(Error::UnexpectedEnd)
        }
    } else if b[p] == 1 {
        if fits(b, p + 1, 1) {
            Ok((Toon::Internal(b[p + 1]), p + 2))
        } else {
            Err(Error::UnexpectedEnd)
        }
    } else {
        Err(Error::InvalidToonReference(b[p]))
    }
}

/// A material record at `p` under settings `s`, and the position after it.
pub open spec fn parse_material(b: Seq<u8>, p: int, s: Settings) -> Result<(MaterialView, int), Error> {
    let size = s.texture_index_size;
    let w = size.width();
    match parse_names(b, p, s.text_encoding) {
        Err(err) => Err(err),
        Ok((local, universal, q)) => if !fits(b, q, 65 + 2 * w + 1) {
            Err(Error::UnexpectedEnd)
        } else {
            match parse_toon(b, q + 65 + 2 * w + 1, size) {
                Err(err) => Err(err),
                Ok((toon, t)) => match parse_text(b, t, s.text_encoding) {
                    Err(err) => Err(err),
                    Ok((metadata, m)) => if !fits(b, m, 4) {
                        Err(Error::UnexpectedEnd)
                    } else {
                        Ok(
                            (
                                MaterialView {
                                    local_name: local,
                                    universal_name: universal,
                                    diffuse: vec4_at(b, q),
                                    specular: vec3_at(b, q + 16),
                                    specular_strength: f32_at(b, q + 28),
                                    ambient: vec3_at(b, q + 32),
                                    draw_flags: b[q + 44],
                                    edge_color: vec4_at(b, q + 45),
                                    edge_scale: f32_at(b, q + 61),
                                    texture: TextureIndex(index_at(b, q + 65, size)),
                                    environment: TextureIndex(index_at(b, q + 65 + w, size)),
                                    environment_blend_mode: b[q + 65 + 2 * w],
                                    toon,
                                    metadata,
                                    surface_count: le_i32(b, m) as i32,
                                },
                                m + 4,
                            ),
                        )
                    },
                },
            }
        },
    }
}

pub open spec fn material_step(s: Settings) -> spec_fn(Seq<u8>, int) -> Result<int, Error> {
    |b: Seq<u8>, p: int|
        match parse_material(b, p, s) {
            Ok((_, e)) => Ok(e),
            Err(err) => Err(err),
        }
}

impl Source {
    /// Reads a toon reference.
    pub fn read_toon(&mut self, size: IndexSize) -> (r: Result<Toon, Error>)
        ensures
            final(self).bytes() == old(self).bytes(),
            match parse_toon(old(self).bytes(), old(self).position(), size) {
                Ok((t, e)) => r == Ok::<Toon, Error>(t) && final(self).position() == e,
                Err(err) => r == Err::<Toon, Error>(err),
            },
    {
        match self.read_u8()? {
            0u8 => Ok(Toon::Texture(TextureIndex(self.read_index(size)?))),
            1u8 => Ok(Toon::Internal(self.read_u8()?)),
            e => Err(Error::InvalidToonReference(e)),
        }
    }
}

/// Reader of the material section.
pub struct MaterialReader {
    pub settings: Settings,
    pub count: i32,
    pub remaining: i32,
    pub read: Source,
}

impl MaterialReader {
    /// Drains the textures `prev` has not decoded, then opens the material section.
    pub fn new(prev: TextureReader) -> (r: Result<MaterialReader, Error>)
        ensures
            match next_section(
                texture_step(prev.settings),
                prev.read.bytes(),
                prev.read.position(),
                pending(prev.remaining),
            ) {
                Ok((c, e)) => r is Ok && r->Ok_0.settings == prev.settings && r->Ok_0.count == c
                    && r->Ok_0.remaining == remaining_of(c) && r->Ok_0.read.bytes()
                    == prev.read.bytes() && r->Ok_0.read.position() == e,
                Err(err) => r is Err && r->Err_0 == err,
            },
    {
        let ghost s = prev.settings;
        let ghost b = prev.read.bytes();
        let ghost goal = next_section(
            texture_step(s),
            b,
            prev.read.position(),
            pending(prev.remaining),
        );
        let mut v = prev;
        while v.remaining > 0
            invariant
                s == prev.settings,
                b == prev.read.bytes(),
                goal == next_section(
                    texture_step(prev.settings),
                    prev.read.bytes(),
                    prev.read.position(),
                    pending(prev.remaining),
                ),
                v.settings == s,
                v.read.bytes() == b,
                goal == next_section(texture_step(s), b, v.read.position(), pending(v.remaining)),
            decreases v.remaining,
        {
            proof {
                lemma_drain_unfold(texture_step(s), b, v.read.position(), pending(v.remaining));
            }
            v.next()?;
        }
        let count = v.read.read_i32()?;
        Ok(
            MaterialReader {
                settings: v.settings,
                count,
                remaining: if count < 0 {
                    0
                } else {
                    count
                },
                read: v.read,
            },
        )
    }

    /// Decodes the next material, or gives `None` once the section is used up.
    pub fn next(&mut self) -> (r: Result<Option<Material>, Error>)
        ensures
            final(self).settings == old(self).settings,
            final(self).count == old(self).count,
            final(self).read.bytes() == old(self).read.bytes(),
            old(self).remaining <= 0 ==> r is Ok && r->Ok_0 is None && *final(self) == *old(self),
            old(self).remaining > 0 ==> match parse_material(
                old(self).read.bytes(),
                old(self).read.position(),
                old(self).settings,
            ) {
                Ok((m, e)) => r is Ok && r->Ok_0 is Some && r->Ok_0->Some_0@ == m
                    && final(self).read.position() == e && final(self).remaining == old(
                    self,
                ).remaining - 1,
                Err(err) => r is Err && r->Err_0 == err,
            },
            old(self).remaining > 0 ==> match material_step(old(self).settings)(
                old(self).read.bytes(),
                old(self).read.position(),
            ) {
                Ok(e) => r is Ok && final(self).read.position() == e && final(self).remaining
                    == old(self).remaining - 1,
                Err(err) => r is Err && r->Err_0 == err,
            },
    {
        if self.remaining <= 0 {
            return Ok(None);
        }
        let enc = self.settings.text_encoding;
        let size = self.settings.texture_index_size;
        let (local_name, universal_name) = self.read.read_names(enc)?;
        let diffuse = self.read.read_vec4()?;
        let specular = self.read.read_vec3()?;
        let specular_strength = self.read.read_f32()?;
        let ambient = self.read.read_vec3()?;
        let draw_flags = self.read.read_u8()?;
        let edge_color = self.read.read_vec4()?;
        let edge_scale = self.read.read_f32()?;
        let texture = TextureIndex(self.read.read_index(size)?);
        let environment = TextureIndex(self.read.read_index(size)?);
        let environment_blend_mode = self.read.read_u8()?;
        let toon = self.read.read_toon(size)?;
        let metadata = self.read.read_text(enc)?;
        let surface_count = self.read.read_i32()?;
        self.remaining = self.remaining - 1;
        Ok(
            Some(
                Material {
                    local_name,
                    universal_name,
                    diffuse,
                    specular,
                    specular_strength,
                    ambient,
                    draw_flags,
                    edge_color,
                    edge_scale,
                    texture,
                    environment,
                    environment_blend_mode,
                    toon,
                    metadata,
                    surface_count,
                },
            ),
        )
    }
}

} // verus!
