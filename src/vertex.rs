//! The vertex section: geometry, additional attributes and skinning of each vertex.
use vstd::prelude::*;

use crate::error::Error;
use crate::geometry::{f32_at, vec2_at, vec3_at, vec4_at, zero4, Vec2, Vec3, Vec4};
use crate::header::{HeaderReader, Settings};
use crate::section::{parse_count, remaining_of};
use crate::source::{fits, Source};
use crate::weight_deform::{parse_weight_deform, WeightDeform};

verus! {

#[derive(Clone, Copy, Debug)]
pub struct Vertex {
    pub position: Vec3,
    pub normal: Vec3,
    pub uv: Vec2,
    /// The additional vec4 attributes; slots the file does not fill are zero.
    pub additional: [Vec4; 4],
    pub weight_deform: WeightDeform,
    pub edge_scale: u32,
}

pub struct VertexView {
    pub position: Vec3,
    pub normal: Vec3,
    pub uv: Vec2,
    pub additional: Seq<Vec4>,
    pub weight_deform: WeightDeform,
    pub edge_scale: u32,
}

impl View for Vertex {
    type V = VertexView;

    open spec fn view(&self) -> VertexView {
        VertexView {
            position: self.position,
            normal: self.normal,
            uv: self.uv,
            additional: self.additional@,
            weight_deform: self.weight_deform,
            edge_scale: self.edge_scale,
        }
    }
}

/// A vertex record at `p` under settings `s`, and the position after it.
pub open spec fn parse_vertex(b: Seq<u8>, p: int, s: Settings) -> Result<(VertexView, int), Error> {
    let k = if s.additional_vec4_count > 4 { 4 } else { s.additional_vec4_count as int };
    let q = p + 32;
    if !fits(b, p, 32) || !fits(b, q, 16 * k) {
        Err(Error::UnexpectedEnd)
    } else {
        match parse_weight_deform(b, q + 16 * k, s.bone_index_size) {
            Err(err) => Err(err),
            Ok((wd, e)) => if !fits(b, e, 4) {
                Err(Error::UnexpectedEnd)
            } else {
                Ok(
                    (
                        VertexView {
                            position: vec3_at(b, p),
                            normal: vec3_at(b, p + 12),
                            uv: vec2_at(b, p + 24),
                            additional: Seq::new(
                                4,
                                |i: int| if i < k { vec4_at(b, q + 16 * i) } else { zero4() },
                            ),
                            weight_deform: wd,
                            edge_scale: f32_at(b, e),
                        },
                        e + 4,
                    ),
                )
            },
        }
    }
}

/// Where the vertex record at `p` ends, for draining.
pub open spec fn vertex_step(s: Settings) -> spec_fn(Seq<u8>, int) -> Result<int, Error> {
    |b: Seq<u8>, p: int|
        match parse_vertex(b, p, s) {
            Ok((_, e)) => Ok(e),
            Err(err) => Err(err),
        }
}

/// Reads the additional vec4 slot `i` when the settings fill it, else gives zero.
fn read_slot(read: &mut Source, i: u8, k: u8) -> (r: Result<Vec4, Error>)
    requires
        i < 4,
    ensures
        final(read).bytes() == old(read).bytes(),
        i >= k ==> r == Ok::<Vec4, Error>(zero4()) && *final(read) == *old(read),
        i < k && fits(old(read).bytes(), old(read).position(), 16) ==> r == Ok::<Vec4, Error>(
            vec4_at(old(read).bytes(), old(read).position()),
        ) && final(read).position() == old(read).position() + 16,
        i < k && !fits(old(read).bytes(), old(read).position(), 16) ==> r == Err::<Vec4, Error>(
            Error::UnexpectedEnd,
        ),
{
    if i < k {
        read.read_vec4()
    } else {
        Ok(Vec4 { x: 0, y: 0, z: 0, w: 0 })
    }
}

/// Reader of the vertex section.
pub struct VertexReader {
    pub settings: Settings,
    /// Record count the section declares.
    pub count: i32,
    /// Records not yet decoded.
    pub remaining: i32,
    /// The byte source, positioned at the next record.
    pub read: Source,
}

impl VertexReader {
    /// Opens the vertex section that follows the header.
    pub fn new(header: HeaderReader) -> (r: Result<VertexReader, Error>)
        ensures
            match parse_count(header.read.bytes(), header.read.position()) {
                Ok((c, e)) => r is Ok && r->Ok_0.settings == header.settings && r->Ok_0.count == c
                    && r->Ok_0.remaining == remaining_of(c) && r->Ok_0.read.bytes()
                    == header.read.bytes() && r->Ok_0.read.position() == e,
                Err(err) => r is Err && r->Err_0 == err,
            },
    {
        let mut read = header.read;
        let count = read.read_i32()?;
        Ok(
            VertexReader {
                settings: header.settings,
                count,
                remaining: if count < 0 {
                    0
                } else {
                    count
                },
                read,
            },
        )
    }

    /// Decodes the next vertex, or gives `None` once the declared count is used up.
    pub fn next_vertex(&mut self) -> (r: Result<Option<Vertex>, Error>)
        ensures
            final(self).settings == old(self).settings,
            final(self).count == old(self).count,
            final(self).read.bytes() == old(self).read.bytes(),
            old(self).remaining <= 0 ==> r is Ok && r->Ok_0 is None && *final(self) == *old(self),
            old(self).remaining > 0 ==> match parse_vertex(
                old(self).read.bytes(),
                old(self).read.position(),
                old(self).settings,
            ) {
                Ok((v, e)) => r is Ok && r->Ok_0 is Some && r->Ok_0->Some_0@ == v
                    && final(self).read.position() == e && final(self).remaining == old(
                    self,
                ).remaining - 1,
                Err(err) => r is Err && r->Err_0 == err,
            },
            old(self).remaining > 0 ==> match vertex_step(old(self).settings)(
                old(self).read.bytes(),
                old(self).read.position(),
            ) {
                Ok(e) => r is Ok && final(self).read.position() == e && final(self).remaining
                    == old(self).remaining - 1,
                Err(err) => r is Err && r->Err_0 == err,
            },
    {
        if self.remaining <= 0 {
            return Ok(None);
        }
        let ghost b = self.read.bytes();
        let ghost p = self.read.position();
        let k = self.settings.additional_vec4_count;
        let position = self.read.read_vec3()?;
        let normal = self.read.read_vec3()?;
        let uv = self.read.read_vec2()?;
        let a0 = read_slot(&mut self.read, 0, k)?;
        let a1 = read_slot(&mut self.read, 1, k)?;
        let a2 = read_slot(&mut self.read, 2, k)?;
        let a3 = read_slot(&mut self.read, 3, k)?;
        let additional = [a0, a1, a2, a3];
        let weight_deform = self.read.read_weight_deform(self.settings.bone_index_size)?;
        let edge_scale = self.read.read_f32()?;
        self.remaining = self.remaining - 1;
        let v = Vertex { position, normal, uv, additional, weight_deform, edge_scale };
        proof {
            let q = p + 32;
            let k = if k > 4 { 4 } else { k as int };
            assert(v@.additional =~= Seq::new(
                4,
                |i: int| if i < k { vec4_at(b, q + 16 * i) } else { zero4() },
            ));
        }
        Ok(Some(v))
    }

    /// A sequence over the records still unread; decoding one advances this reader.
    pub fn iter(&mut self) -> (r: VertexIterator<'_>)
        ensures
            *r.reader == *old(self),
            *final(self) == *final(r.reader),
    {
        VertexIterator { reader: self }
    }
}

/// Yields each remaining vertex in turn, or the error that stopped decoding.
pub struct VertexIterator<'a> {
    pub reader: &'a mut VertexReader,
}

impl<'a> VertexIterator<'a> {
    /// `None` once the section is used up; otherwise the next decode result.
    pub fn next(&mut self) -> (r: Option<Result<Vertex, Error>>)
        ensures
            final(self).reader.settings == old(self).reader.settings,
            final(self).reader.count == old(self).reader.count,
            final(self).reader.read.bytes() == old(self).reader.read.bytes(),
            old(self).reader.remaining <= 0 ==> r is None && *final(self).reader == *old(
                self,
            ).reader,
            old(self).reader.remaining > 0 ==> match parse_vertex(
                old(self).reader.read.bytes(),
                old(self).reader.read.position(),
                old(self).reader.settings,
            ) {
                Ok((v, e)) => r is Some && r->Some_0 is Ok && r->Some_0->Ok_0@ == v
                    && final(self).reader.read.position() == e && final(self).reader.remaining
                    == old(self).reader.remaining - 1,
                Err(err) => r is Some && r->Some_0 is Err && r->Some_0->Err_0 == err,
            },
    {
        match self.reader.next_vertex() {
            Ok(Some(v)) => Some(Ok(v)),
            Ok(None) => None,
            Err(e) => Some(Err(e)),
        }
    }
}

} // verus!
