//! The texture section: one path per texture.
use vstd::prelude::*;

use crate::error::Error;
use crate::header::Settings;
use crate::section::{lemma_drain_unfold, next_section, pending, remaining_of};
use crate::source::Source;
use crate::surface::{surface_step, SurfaceReader};
use crate::text::parse_text;

verus! {

pub open spec fn texture_step(s: Settings) -> spec_fn(Seq<u8>, int) -> Result<int, Error> {
    |b: Seq<u8>, p: int|
        match parse_text(b, p, s.text_encoding) {
            Ok((_, e)) => Ok(e),
            Err(err) => Err(err),
        }
}

/// Reader of the texture section.
pub struct TextureReader {
    pub settings: Settings,
    pub count: i32,
    pub remaining: i32,
    pub read: Source,
}

impl TextureReader {
    /// Drains the triangles `prev` has not decoded, then opens the texture section.
    pub fn new(prev: SurfaceReader) -> (r: Result<TextureReader, Error>)
        ensures
            match next_section(
                surface_step(prev.settings),
                prev.read.bytes(),
                prev.read.position(),
                pending(prev.remaining),
            ) {
                Ok((c, e)) => r is Ok && r->Ok_0.settings == prev.settings && r->Ok_0.count == c
                    && r->Ok_0.remaining == remaining_of(c) && r->Ok_0.read.bytes()
                    == prev.read.bytes() && r->Ok_0.read.position() == e,
                Err(err) => r is Err && r->Err_0 == err,
            },
    {
        let ghost s = prev.settings;
        let ghost b = prev.read.bytes();
        let ghost goal = next_section(
            surface_step(s),
            b,
            prev.read.position(),
            pending(prev.remaining),
        );
        let mut v = prev;
        while v.remaining > 0
            invariant
                s == prev.settings,
                b == prev.read.bytes(),
                goal == next_section(
                    surface_step(prev.settings),
                    prev.read.bytes(),
                    prev.read.position(),
                    pending(prev.remaining),
                ),
                v.settings == s,
                v.read.bytes() == b,
                goal == next_section(surface_step(s), b, v.read.position(), pending(v.remaining)),
            decreases v.remaining,
        {
            proof {
                lemma_drain_unfold(surface_step(s), b, v.read.position(), pending(v.remaining));
            }
            v.next()?;
        }
        let count = v.read.read_i32()?;
        Ok(
            TextureReader {
                settings: v.settings,
                count,
                remaining: if count < 0 {
                    0
                } else {
                    count
                },
                read: v.read,
            },
        )
    }

    /// Decodes the next texture path, or gives `None` once the section is used up.
    pub fn next(&mut self) -> (r: Result<Option<String>, Error>)
        ensures
            final(self).settings == old(self).settings,
            final(self).count == old(self).count,
            final(self).read.bytes() == old(self).read.bytes(),
            old(self).remaining <= 0 ==> r is Ok && r->Ok_0 is None && *final(self) == *old(self),
            old(self).remaining > 0 ==> match parse_text(
                old(self).read.bytes(),
                old(self).read.position(),
                old(self).settings.text_encoding,
            ) {
                Ok((t, e)) => r is Ok && r->Ok_0 is Some && r->Ok_0->Some_0@ == t
                    && final(self).read.position() == e && final(self).remaining == old(
                    self,
                ).remaining - 1,
                Err(err) => r is Err && r->Err_0 == err,
            },
    {
        if self.remaining <= 0 {
            return Ok(None);
        }
        let path = self.read.read_text(self.settings.text_encoding)?;
        self.remaining = self.remaining - 1;
        Ok(Some(path))
    }
}

} // verus!
