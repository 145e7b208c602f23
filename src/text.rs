//! Length-prefixed text runs in the file's declared encoding.
use vstd::prelude::*;

use crate::error::Error;
use crate::source::{fits, le_u16, le_u32, Source};

verus! {

/// How every text run of a file is encoded; selected once by the header.
#[derive(Clone, Copy, Debug, PartialEq, Eq, Structural)]
pub enum TextEncoding {
    Utf16Le,
    Utf8,
}

/// The characters that UTF-8 bytes `b` decode to, or `None` when they are not valid UTF-8.
pub uninterp spec fn utf8_decode(b: Seq<u8>) -> Option<Seq<char>>;

/// The characters that UTF-16 code units `u` decode to, or `None` when they are not valid UTF-16.
pub uninterp spec fn utf16_decode(u: Seq<u16>) -> Option<Seq<char>>;

/// Little-endian UTF-16 code units of an even-length byte run.
pub open spec fn utf16_units(b: Seq<u8>) -> Seq<u16> {
    Seq::new((b.len() / 2) as nat, |i: int| le_u16(b, 2 * i) as u16)
}

/// What a byte run decodes to under `enc`; a UTF-16 run of odd length is invalid.
pub open spec fn decode_text(b: Seq<u8>, enc: TextEncoding) -> Option<Seq<char>> {
    match enc {
        TextEncoding::Utf8 => utf8_decode(b),
        TextEncoding::Utf16Le => if b.len() % 2 == 0 {
            utf16_decode(utf16_units(b))
        } else {
            None
        },
    }
}

/// A text run at `p`: a four-byte length, then that many bytes of encoded text.
/// Gives the characters and the position after the run.
pub open spec fn parse_text(b: Seq<u8>, p: int, enc: TextEncoding) -> Result<(Seq<char>, int), Error> {
    if !fits(b, p, 4) {
        Err(Error::UnexpectedEnd)
    } else {
        let n = le_u32(b, p);
        if !fits(b, p + 4, n) {
            Err(Error::UnexpectedEnd)
        } else {
            match decode_text(b.subrange(p + 4, p + 4 + n), enc) {
                Some(s) => Ok((s, p + 4 + n)),
                None => Err(Error::InvalidText),
            }
        }
    }
}

/// Relies on std's `String::from_utf8`: decodes valid UTF-8, refuses anything else.
#[verifier::external_body]
fn utf8_string(b: Vec<u8>) -> (r: Option<String>)
    ensures
        match r {
            Some(s) => utf8_decode(b@) == Some(s@),
            None => utf8_decode(b@) is None,
        },
        b@.len() == 0 ==> r is Some && r->Some_0@.len() == 0,
{
    String::from_utf8(b).ok()
}

/// Relies on std's `String::from_utf16`: decodes valid UTF-16, refuses unpaired surrogates.
#[verifier::external_body]
fn utf16_string(u: &Vec<u16>) -> (r: Option<String>)
    ensures
        match r {
            Some(s) => utf16_decode(u@) == Some(s@),
            None => utf16_decode(u@) is None,
        },
        u@.len() == 0 ==> r is Some && r->Some_0@.len() == 0,
{
    String::from_utf16(u).ok()
}

/// Decodes an even-length byte run into little-endian UTF-16 code units.
fn units_of(b: &Vec<u8>) -> (r: Vec<u16>)
    requires
        b@.len() % 2 == 0,
    ensures
        r@ == utf16_units(b@),
{
    let len = b.len();
    let n = len / 2;
    let mut r: Vec<u16> = Vec::with_capacity(n);
    let mut i: usize = 0;
    while i < n
        invariant
            n == b@.len() / 2,
            2 * n == b@.len(),
            b@.len() == len,
            i <= n,
            r@ == utf16_units(b@).take(i as int),
        decreases n - i,
    {
        let lo = b[2 * i] as u16;
        let hi = b[2 * i + 1] as u16;
        r.push(lo + 256 * hi);
        i = i + 1;
        assert(r@ =~= utf16_units(b@).take(i as int));
    }
    assert(r@ =~= utf16_units(b@));
    r
}

/// Decodes a byte run under `enc`.
pub fn decode(b: Vec<u8>, enc: TextEncoding) -> (r: Result<String, Error>)
    ensures
        match decode_text(b@, enc) {
            Some(s) => r is Ok && r->Ok_0@ == s,
            None => r == Err::<String, Error>(Error::InvalidText),
        },
{
    match enc {
        TextEncoding::Utf8 => match utf8_string(b) {
            Some(s) => Ok(s),
            None => Err(Error::InvalidText),
        },
        TextEncoding::Utf16Le => {
            if b.len() % 2 != 0 {
                return Err(Error::InvalidText);
            }
            let u = units_of(&b);
            match utf16_string(&u) {
                Some(s) => Ok(s),
                None => Err(Error::InvalidText),
            }
        },
    }
}

impl Source {
    /// Reads a length-prefixed text run in encoding `enc`.
    pub fn read_text(&mut self, enc: TextEncoding) -> (r: Result<String, Error>)
        ensures
            final(self).bytes() == old(self).bytes(),
            match parse_text(old(self).bytes(), old(self).position(), enc) {
                Ok((s, e)) => r is Ok && r->Ok_0@ == s && final(self).position() == e,
                Err(err) => r == Err::<String, Error>(err),
            },
    {
        let n = self.read_u32()?;
        let bytes = self.read_bytes(n)?;
        decode(bytes, enc)
    }
}


/// The local and the universal name that open most records, and the position after them.
pub open spec fn parse_names(b: Seq<u8>, p: int, enc: TextEncoding) -> Result<
    (Seq<char>, Seq<char>, int),
    Error,
> {
    match parse_text(b, p, enc) {
        Err(err) => Err(err),
        Ok((local, q)) => match parse_text(b, q, enc) {
            Err(err) => Err(err),
            Ok((universal, e)) => Ok((local, universal, e)),
        },
    }
}

impl Source {
    /// Reads a local name and a universal name.
    pub fn read_names(&mut self, enc: TextEncoding) -> (r: Result<(String, String), Error>)
        ensures
            final(self).bytes() == old(self).bytes(),
            match parse_names(old(self).bytes(), old(self).position(), enc) {
                Ok((l, u, e)) => r is Ok && r->Ok_0.0@ == l && r->Ok_0.1@ == u
                    && final(self).position() == e,
                Err(err) => r is Err && r->Err_0 == err,
            },
    {
        let local = self.read_text(enc)?;
        let universal = self.read_text(enc)?;
        Ok((local, universal))
    }
}


/// A text run that decodes from `b1` decodes the same way from any `b2` that holds the
/// same bytes up to the run's end: nothing past the run is read.
pub proof fn lemma_text_prefix(b1: Seq<u8>, b2: Seq<u8>, p: int, enc: TextEncoding)
    requires
        parse_text(b1, p, enc) is Ok,
        parse_text(b1, p, enc)->Ok_0.1 <= b2.len(),
        b1.subrange(0, parse_text(b1, p, enc)->Ok_0.1) == b2.subrange(
            0,
            parse_text(b1, p, enc)->Ok_0.1,
        ),
    ensures
        parse_text(b2, p, enc) == parse_text(b1, p, enc),
{
    let e = parse_text(b1, p, enc)->Ok_0.1;
    assert forall|i: int| 0 <= i < e implies b1[i] == b2[i] by {
        assert(b1.subrange(0, e)[i] == b2.subrange(0, e)[i]);
    }
    assert(b1.subrange(p + 4, e) =~= b2.subrange(p + 4, e));
}

/// Two names that decode from `b1` decode the same way from any `b2` that holds the same
/// bytes up to their end.
pub proof fn lemma_names_prefix(b1: Seq<u8>, b2: Seq<u8>, p: int, enc: TextEncoding)
    requires
        parse_names(b1, p, enc) is Ok,
        parse_names(b1, p, enc)->Ok_0.2 <= b2.len(),
        b1.subrange(0, parse_names(b1, p, enc)->Ok_0.2) == b2.subrange(
            0,
            parse_names(b1, p, enc)->Ok_0.2,
        ),
    ensures
        parse_names(b2, p, enc) == parse_names(b1, p, enc),
{
    let e = parse_names(b1, p, enc)->Ok_0.2;
    let q = parse_text(b1, p, enc)->Ok_0.1;
    assert(b1.subrange(0, q) =~= b1.subrange(0, e).subrange(0, q));
    assert(b2.subrange(0, q) =~= b2.subrange(0, e).subrange(0, q));
    lemma_text_prefix(b1, b2, p, enc);
    lemma_text_prefix(b1, b2, q, enc);
}

} // verus!
