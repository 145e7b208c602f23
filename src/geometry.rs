//! Fixed-size groups of 32-bit floats, each held as its IEEE-754 bit pattern.
use vstd::prelude::*;

use crate::error::Error;
use crate::source::{fits, le_u32, Source};

verus! {

/// Two floats, as bit patterns.
#[derive(Clone, Copy, Debug, PartialEq, Eq, Structural)]
pub struct Vec2 {
    pub x: u32,
    pub y: u32,
}

/// Three floats, as bit patterns.
#[derive(Clone, Copy, Debug, PartialEq, Eq, Structural)]
pub struct Vec3 {
    pub x: u32,
    pub y: u32,
    pub z: u32,
}

/// Four floats, as bit patterns.
#[derive(Clone, Copy, Debug, PartialEq, Eq, Structural)]
pub struct Vec4 {
    pub x: u32,
    pub y: u32,
    pub z: u32,
    pub w: u32,
}

/// The float bit pattern stored at `p`.
pub open spec fn f32_at(b: Seq<u8>, p: int) -> u32 {
    le_u32(b, p) as u32
}

pub open spec fn vec2_at(b: Seq<u8>, p: int) -> Vec2 {
    Vec2 { x: f32_at(b, p), y: f32_at(b, p + 4) }
}

pub open spec fn vec3_at(b: Seq<u8>, p: int) -> Vec3 {
    Vec3 { x: f32_at(b, p), y: f32_at(b, p + 4), z: f32_at(b, p + 8) }
}

pub open spec fn vec4_at(b: Seq<u8>, p: int) -> Vec4 {
    Vec4 { x: f32_at(b, p), y: f32_at(b, p + 4), z: f32_at(b, p + 8), w: f32_at(b, p + 12) }
}

/// The all-zero `Vec4`, used for vertex attribute slots the file does not fill.
pub open spec fn zero4() -> Vec4 {
    Vec4 { x: 0, y: 0, z: 0, w: 0 }
}

impl Source {
    /// Reads one float as its bit pattern.
    pub fn read_f32(&mut self) -> (r: Result<u32, Error>)
        ensures
            final(self).bytes() == old(self).bytes(),
            fits(old(self).bytes(), old(self).position(), 4) ==> r == Ok::<u32, Error>(
                f32_at(old(self).bytes(), old(self).position()),
            ) && final(self).position() == old(self).position() + 4,
            !fits(old(self).bytes(), old(self).position(), 4) ==> r == Err::<u32, Error>(
                Error::UnexpectedEnd,
            ),
    {
        self.read_u32()
    }

    pub fn read_vec2(&mut self) -> (r: Result<Vec2, Error>)
        ensures
            final(self).bytes() == old(self).bytes(),
            fits(old(self).bytes(), old(self).position(), 8) ==> r == Ok::<Vec2, Error>(
                vec2_at(old(self).bytes(), old(self).position()),
            ) && final(self).position() == old(self).position() + 8,
            !fits(old(self).bytes(), old(self).position(), 8) ==> r == Err::<Vec2, Error>(
                Error::UnexpectedEnd,
            ),
    {
        let x = self.read_f32()?;
        let y = self.read_f32()?;
        Ok(Vec2 { x, y })
    }

    pub fn read_vec3(&mut self) -> (r: Result<Vec3, Error>)
        ensures
            final(self).bytes() == old(self).bytes(),
            fits(old(self).bytes(), old(self).position(), 12) ==> r == Ok::<Vec3, Error>(
                vec3_at(old(self).bytes(), old(self).position()),
            ) && final(self).position() == old(self).position() + 12,
            !fits(old(self).bytes(), old(self).position(), 12) ==> r == Err::<Vec3, Error>(
                Error::UnexpectedEnd,
            ),
    {
        let x = self.read_f32()?;
        let y = self.read_f32()?;
        let z = self.read_f32()?;
        Ok(Vec3 { x, y, z })
    }

    pub fn read_vec4(&mut self) -> (r: Result<Vec4, Error>)
        ensures
            final(self).bytes() == old(self).bytes(),
            fits(old(self).bytes(), old(self).position(), 16) ==> r == Ok::<Vec4, Error>(
                vec4_at(old(self).bytes(), old(self).position()),
            ) && final(self).position() == old(self).position() + 16,
            !fits(old(self).bytes(), old(self).position(), 16) ==> r == Err::<Vec4, Error>(
                Error::UnexpectedEnd,
            ),
    {
        let x = self.read_f32()?;
        let y = self.read_f32()?;
        let z = self.read_f32()?;
        let w = self.read_f32()?;
        Ok(Vec4 { x, y, z, w })
    }
}

} // verus!
