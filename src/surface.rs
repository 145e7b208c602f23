//! The surface section: triangles given as three vertex references each.
use vstd::prelude::*;

use crate::error::Error;
use crate::header::Settings;
use crate::index::{index_at, VertexIndex};
use crate::section::{lemma_drain_unfold, next_section, pending, remaining_of};
use crate::source::{fits, Source};
use crate::vertex::{vertex_step, VertexReader};

verus! {

/// One triangle. The three references need not be distinct.
#[derive(Clone, Copy, Debug, PartialEq, Eq, Structural)]
pub struct Surface {
    pub a: VertexIndex,
    pub b: VertexIndex,
    pub c: VertexIndex,
}

/// A triangle at `p` and the position after it.
pub open spec fn parse_surface(b: Seq<u8>, p: int, s: Settings) -> Result<(Surface, int), Error> {
    let size = s.vertex_index_size;
    let w = size.width();
    if !fits(b, p, 3 * w) {
        Err(Error::UnexpectedEnd)
    } else {
        Ok(
            (
                Surface {
                    a: VertexIndex(index_at(b, p, size)),
                    b: VertexIndex(index_at(b, p + w, size)),
                    c: VertexIndex(index_at(b, p + 2 * w, size)),
                },
                p + 3 * w,
            ),
        )
    }
}

pub open spec fn surface_step(s: Settings) -> spec_fn(Seq<u8>, int) -> Result<int, Error> {
    |b: Seq<u8>, p: int|
        match parse_surface(b, p, s) {
            Ok((_, e)) => Ok(e),
            Err(err) => Err(err),
        }
}

/// Reader of the surface section. The section declares how many vertex references it
/// holds, three for each triangle.
pub struct SurfaceReader {
    pub settings: Settings,
    /// Number of vertex references the section declares.
    pub count: i32,
    /// Triangles not yet decoded.
    pub remaining: i32,
    /// The byte source, positioned at the next triangle.
    pub read: Source,
}

impl SurfaceReader {
    /// Drains the vertices `v` has not decoded, then opens the surface section.
    pub fn new(prev: VertexReader) -> (r: Result<SurfaceReader, Error>)
        ensures
            match next_section(
                vertex_step(prev.settings),
                prev.read.bytes(),
                prev.read.position(),
                pending(prev.remaining),
            ) {
                Ok((c, e)) => r is Ok && r->Ok_0.settings == prev.settings && r->Ok_0.count == c
                    && r->Ok_0.remaining == remaining_of(c) / 3 && r->Ok_0.read.bytes()
                    == prev.read.bytes() && r->Ok_0.read.position() == e,
                Err(err) => r is Err && r->Err_0 == err,
            },
    {
        let mut v = prev;
        let ghost s = v.settings;
        let ghost b = v.read.bytes();
        let ghost goal = next_section(vertex_step(s), b, v.read.position(), pending(v.remaining));
        while v.remaining > 0
            invariant
                s == prev.settings,
                b == prev.read.bytes(),
                goal == next_section(
                    vertex_step(prev.settings),
                    prev.read.bytes(),
                    prev.read.position(),
                    pending(prev.remaining),
                ),
                v.settings == s,
                v.read.bytes() == b,
                goal == next_section(vertex_step(s), b, v.read.position(), pending(v.remaining)),
            decreases v.remaining,
        {
            let ghost p = v.read.position();
            proof {
                lemma_drain_unfold(vertex_step(s), b, p, pending(v.remaining));
            }
            v.next_vertex()?;
        }
        let count = v.read.read_i32()?;
        Ok(
            SurfaceReader {
                settings: v.settings,
                count,
                remaining: if count < 0 {
                    0
                } else {
                    count / 3
                },
                read: v.read,
            },
        )
    }

    /// Decodes the next triangle, or gives `None` once the section is used up.
    pub fn next(&mut self) -> (r: Result<Option<Surface>, Error>)
        ensures
            final(self).settings == old(self).settings,
            final(self).count == old(self).count,
            final(self).read.bytes() == old(self).read.bytes(),
            old(self).remaining <= 0 ==> r is Ok && r->Ok_0 is None && *final(self) == *old(self),
            old(self).remaining > 0 ==> match parse_surface(
                old(self).read.bytes(),
                old(self).read.position(),
                old(self).settings,
            ) {
                Ok((v, e)) => r == Ok::<Option<Surface>, Error>(Some(v))
                    && final(self).read.position() == e && final(self).remaining == old(
                    self,
                ).remaining - 1,
                Err(err) => r == Err::<Option<Surface>, Error>(err),
            },
    {
        if self.remaining <= 0 {
            return Ok(None);
        }
        let size = self.settings.vertex_index_size;
        let a = VertexIndex(self.read.read_index(size)?);
        let b = VertexIndex(self.read.read_index(size)?);
        let c = VertexIndex(self.read.read_index(size)?);
        self.remaining = self.remaining - 1;
        Ok(Some(Surface { a, b, c }))
    }
}

} // verus!
