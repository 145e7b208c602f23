//! The display section: named frames listing the bones and morphs shown together.
use vstd::prelude::*;

use crate::error::Error;
use crate::header::Settings;
use crate::index::{index_at, BoneIndex, MorphIndex};
use crate::morph::{morph_step, MorphReader};
use crate::section::{
    lemma_drain_unfold, lemma_list_done, lemma_list_step, list_after, next_section,
    parse_list, remaining_of, pending,
};
use crate::source::{fits, le_u32, Source};
use crate::text::parse_names;

verus! {

/// One target of a display frame.
#[derive(Clone, Copy, Debug, PartialEq, Eq, Structural)]
pub enum Frame {
    Bone(BoneIndex),
    Morph(MorphIndex),
}

#[derive(Debug)]
pub struct DisplayFrame {
    pub local_name: String,
    pub universal_name: String,
    pub special_flag: bool,
    pub frames: Vec<Frame>,
}

pub struct DisplayFrameView {
    pub local_name: Seq<char>,
    pub universal_name: Seq<char>,
    pub special_flag: bool,
    pub frames: Seq<Frame>,
}

impl View for DisplayFrame {
    type V = DisplayFrameView;

    open spec fn view(&self) -> DisplayFrameView {
        DisplayFrameView {
            local_name: self.local_name@,
            universal_name: self.universal_name@,
            special_flag: self.special_flag,
            frames: self.frames@,
        }
    }
}

/// A frame target at `p`: tag 0 and a bone reference, or tag 1 and a morph reference.
pub open spec fn parse_frame(b: Seq<u8>, p: int, s: Settings) -> Result<(Frame, int), Error> {
    if !fits(b, p, 1) {
        Err(Error::UnexpectedEnd)
    } else if b[p] == 0 {
        if fits(b, p + 1, s.bone_index_size.width()) {
            Ok(
                (
                    Frame::Bone(BoneIndex(index_at(b, p + 1, s.bone_index_size))),
                    p + 1 + s.bone_index_size.width(),
                ),
            )
        } else {
            Err(Error::UnexpectedEnd)
        }
    } else if b[p] == 1 {
        if fits(b, p + 1, s.morph_index_size.width()) {
            Ok(
                (
                    Frame::Morph(MorphIndex(index_at(b, p + 1, s.morph_index_size))),
                    p + 1 + s.morph_index_size.width(),
                ),
            )
        } else {
            Err(Error::UnexpectedEnd)
        }
    } else {
        Err(Error::InvalidFrameType(b[p]))
    }
}

pub open spec fn frame_item(s: Settings) -> spec_fn(Seq<u8>, int) -> Result<(Frame, int), Error> {
    |b: Seq<u8>, p: int| parse_frame(b, p, s)
}

/// A display frame record at `p`: names, flag byte, then a count-prefixed target list.
pub open spec fn parse_display_frame(b: Seq<u8>, p: int, s: Settings) -> Result<
    (DisplayFrameView, int),
    Error,
> {
    match parse_names(b, p, s.text_encoding) {
        Err(err) => Err(err),
        Ok((local, universal, q)) => if !fits(b, q, 5) {
            Err(Error::UnexpectedEnd)
        } else {
            match parse_list(frame_item(s), b, q + 5, le_u32(b, q + 1) as nat) {
                Err(err) => Err(err),
                Ok((frames, e)) => Ok(
                    (
                        DisplayFrameView {
                            local_name: local,
                            universal_name: universal,
                            special_flag: b[q] != 0,
                            frames,
                        },
                        e,
                    ),
                ),
            }
        },
    }
}

pub open spec fn display_step(s: Settings) -> spec_fn(Seq<u8>, int) -> Result<int, Error> {
    |b: Seq<u8>, p: int|
        match parse_display_frame(b, p, s) {
            Ok((_, e)) => Ok(e),
            Err(err) => Err(err),
        }
}

impl Source {
    /// Reads one display frame target.
    pub fn read_frame(&mut self, s: Settings) -> (r: Result<Frame, Error>)
        ensures
            final(self).bytes() == old(self).bytes(),
            match parse_frame(old(self).bytes(), old(self).position(), s) {
                Ok((f, e)) => r == Ok::<Frame, Error>(f) && final(self).position() == e,
                Err(err) => r == Err::<Frame, Error>(err),
            },
    {
        match self.read_u8()? {
            0u8 => Ok(Frame::Bone(BoneIndex(self.read_index(s.bone_index_size)?))),
            1u8 => Ok(Frame::Morph(MorphIndex(self.read_index(s.morph_index_size)?))),
            e => Err(Error::InvalidFrameType(e)),
        }
    }
}

/// Reader of the display section.
pub struct DisplayReader {
    pub settings: Settings,
    pub count: i32,
    pub remaining: i32,
    pub read: Source,
}

impl DisplayReader {
    /// Drains the morphs `prev` has not decoded, then opens the display section.
    pub fn new(prev: MorphReader) -> (r: Result<DisplayReader, Error>)
        ensures
            match next_section(
                morph_step(prev.settings),
                prev.read.bytes(),
                prev.read.position(),
                pending(prev.remaining),
            ) {
                Ok((c, e)) => r is Ok && r->Ok_0.settings == prev.settings && r->Ok_0.count == c
                    && r->Ok_0.remaining == remaining_of(c) && r->Ok_0.read.bytes()
                    == prev.read.bytes() && r->Ok_0.read.position() == e,
                Err(err) => r is Err && r->Err_0 == err,
            },
    {
        let ghost s = prev.settings;
        let ghost b = prev.read.bytes();
        let ghost goal = next_section(morph_step(s), b, prev.read.position(), pending(prev.remaining));
        let mut v = prev;
        while v.remaining > 0
            invariant
                s == prev.settings,
                b == prev.read.bytes(),
                goal == next_section(
                    morph_step(prev.settings),
                    prev.read.bytes(),
                    prev.read.position(),
                    pending(prev.remaining),
                ),
                v.settings == s,
                v.read.bytes() == b,
                goal == next_section(morph_step(s), b, v.read.position(), pending(v.remaining)),
            decreases v.remaining,
        {
            proof {
                lemma_drain_unfold(morph_step(s), b, v.read.position(), pending(v.remaining));
            }
            v.next()?;
        }
        let count = v.read.read_i32()?;
        Ok(
            DisplayReader {
                settings: v.settings,
                count,
                remaining: if count < 0 {
                    0
                } else {
                    count
                },
                read: v.read,
            },
        )
    }

    /// Decodes the next display frame, or gives `None` once the section is used up.
    #[verifier::loop_isolation(false)]
    pub fn next(&mut self) -> (r: Result<Option<DisplayFrame>, Error>)
        ensures
            final(self).settings == old(self).settings,
            final(self).count == old(self).count,
            final(self).read.bytes() == old(self).read.bytes(),
            old(self).remaining <= 0 ==> r is Ok && r->Ok_0 is None && *final(self) == *old(self),
            old(self).remaining > 0 ==> match parse_display_frame(
                old(self).read.bytes(),
                old(self).read.position(),
                old(self).settings,
            ) {
                Ok((d, e)) => r is Ok && r->Ok_0 is Some && r->Ok_0->Some_0@ == d
                    && final(self).read.position() == e && final(self).remaining == old(
                    self,
                ).remaining - 1,
                Err(err) => r is Err && r->Err_0 == err,
            },
            old(self).remaining > 0 ==> match display_step(old(self).settings)(
                old(self).read.bytes(),
                old(self).read.position(),
            ) {
                Ok(e) => r is Ok && final(self).read.position() == e && final(self).remaining
                    == old(self).remaining - 1,
                Err(err) => r is Err && r->Err_0 == err,
            },
    {
        if self.remaining <= 0 {
            return Ok(None);
        }
        let s = self.settings;
        let ghost b = self.read.bytes();
        let (local_name, universal_name) = self.read.read_names(s.text_encoding)?;
        let special_flag = self.read.read_u8()? != 0;
        let n = self.read.read_u32()?;
        let ghost start = self.read.position();
        let ghost goal = parse_list(frame_item(s), b, start, n as nat);
        let mut frames: Vec<Frame> = Vec::new();
        proof {
            match goal {
                Ok((xs, e)) => {
                    assert(Seq::<Frame>::empty().add(xs) =~= xs);
                },
                Err(_) => {},
            }
        }
        let mut i: u32 = 0;
        while i < n
            invariant
                self.read.bytes() == b,
                self.settings == s,
                self.count == old(self).count,
                self.remaining == old(self).remaining,
                self.remaining > 0,
                i <= n,
                goal == list_after(frame_item(s), b, frames@, self.read.position(), (n - i) as nat),
            decreases n - i,
        {
            proof {
                lemma_list_step(frame_item(s), b, frames@, self.read.position(), (n - i) as nat);
            }
            let f = self.read.read_frame(s)?;
            frames.push(f);
            i = i + 1;
        }
        proof {
            lemma_list_done(frame_item(s), b, frames@, self.read.position());
        }
        self.remaining = self.remaining - 1;
        Ok(Some(DisplayFrame { local_name, universal_name, special_flag, frames }))
    }

    /// A sequence over the display frames still unread; decoding one advances this reader.
    pub fn iter(&mut self) -> (r: DisplayIterator<'_>)
        ensures
            *r.reader == *old(self),
            *final(self) == *final(r.reader),
    {
        DisplayIterator { reader: self }
    }
}

/// Yields each remaining display frame in turn, or the error that stopped decoding.
pub struct DisplayIterator<'a> {
    pub reader: &'a mut DisplayReader,
}

impl<'a> DisplayIterator<'a> {
    /// `None` once the section is used up; otherwise the next decode result.
    pub fn next(&mut self) -> (r: Option<Result<DisplayFrame, Error>>)
        ensures
            final(self).reader.settings == old(self).reader.settings,
            final(self).reader.count == old(self).reader.count,
            final(self).reader.read.bytes() == old(self).reader.read.bytes(),
            old(self).reader.remaining <= 0 ==> r is None && *final(self).reader == *old(
                self,
            ).reader,
            old(self).reader.remaining > 0 ==> match parse_display_frame(
                old(self).reader.read.bytes(),
                old(self).reader.read.position(),
                old(self).reader.settings,
            ) {
                Ok((d, e)) => r is Some && r->Some_0 is Ok && r->Some_0->Ok_0@ == d
                    && final(self).reader.read.position() == e && final(self).reader.remaining
                    == old(self).reader.remaining - 1,
                Err(err) => r is Some && r->Some_0 is Err && r->Some_0->Err_0 == err,
            },
    {
        match self.reader.next() {
            Ok(Some(d)) => Some(Ok(d)),
            Ok(None) => None,
            Err(e) => Some(Err(e)),
        }
    }
}

} // verus!
