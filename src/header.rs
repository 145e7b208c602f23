//! The header section and the configuration it resolves for every later section.
use vstd::prelude::*;

use crate::error::Error;
use crate::index::IndexSize;
use crate::source::{fits, le_u32, Source};
use crate::text::{parse_text, TextEncoding};

verus! {

/// Configuration read once from the header and copied into every section reader.
#[derive(Clone, Copy, Debug, PartialEq, Eq, Structural)]
pub struct Settings {
    pub text_encoding: TextEncoding,
    /// Number of additional vec4 attributes per vertex, 0 to 4.
    pub additional_vec4_count: u8,
    pub vertex_index_size: IndexSize,
    pub texture_index_size: IndexSize,
    pub material_index_size: IndexSize,
    pub bone_index_size: IndexSize,
    pub morph_index_size: IndexSize,
    pub rigid_body_index_size: IndexSize,
}

/// Bit pattern of the version float 2.0.
pub const VERSION_2_0: u32 = 0x4000_0000;

/// Bit pattern of the version float 2.1.
pub const VERSION_2_1: u32 = 0x4006_6666;

pub open spec fn encoding_of(b: u8) -> Option<TextEncoding> {
    if b == 0 {
        Some(TextEncoding::Utf16Le)
    } else if b == 1 {
        Some(TextEncoding::Utf8)
    } else {
        None
    }
}

pub open spec fn index_size_of(b: u8) -> Option<IndexSize> {
    if b == 1 {
        Some(IndexSize::I8)
    } else if b == 2 {
        Some(IndexSize::I16)
    } else if b == 4 {
        Some(IndexSize::I32)
    } else {
        None
    }
}

/// The configuration that the eight header bytes `g` select, checked in their order.
pub open spec fn settings_of(g: Seq<u8>) -> Result<Settings, Error> {
    if encoding_of(g[0]) is None {
        Err(Error::InvalidTextEncoding(g[0]))
    } else if g[1] > 4 {
        Err(Error::InvalidAdditionalCount(g[1]))
    } else if index_size_of(g[2]) is None {
        Err(Error::InvalidIndexSize(g[2]))
    } else if index_size_of(g[3]) is None {
        Err(Error::InvalidIndexSize(g[3]))
    } else if index_size_of(g[4]) is None {
        Err(Error::InvalidIndexSize(g[4]))
    } else if index_size_of(g[5]) is None {
        Err(Error::InvalidIndexSize(g[5]))
    } else if index_size_of(g[6]) is None {
        Err(Error::InvalidIndexSize(g[6]))
    } else if index_size_of(g[7]) is None {
        Err(Error::InvalidIndexSize(g[7]))
    } else {
        Ok(
            Settings {
                text_encoding: encoding_of(g[0])->Some_0,
                additional_vec4_count: g[1],
                vertex_index_size: index_size_of(g[2])->Some_0,
                texture_index_size: index_size_of(g[3])->Some_0,
                material_index_size: index_size_of(g[4])->Some_0,
                bone_index_size: index_size_of(g[5])->Some_0,
                morph_index_size: index_size_of(g[6])->Some_0,
                rigid_body_index_size: index_size_of(g[7])->Some_0,
            },
        )
    }
}

fn index_size(b: u8) -> (r: Result<IndexSize, Error>)
    ensures
        match index_size_of(b) {
            Some(s) => r == Ok::<IndexSize, Error>(s),
            None => r == Err::<IndexSize, Error>(Error::InvalidIndexSize(b)),
        },
{
    if b == 1 {
        Ok(IndexSize::I8)
    } else if b == 2 {
        Ok(IndexSize::I16)
    } else if b == 4 {
        Ok(IndexSize::I32)
    } else {
        Err(Error::InvalidIndexSize(b))
    }
}

/// Resolves the configuration from the eight configuration bytes of the header.
pub fn resolve_settings(g: &Vec<u8>) -> (r: Result<Settings, Error>)
    requires
        g@.len() >= 8,
    ensures
        r == settings_of(g@.subrange(0, 8)),
{
    let text_encoding = if g[0] == 0 {
        TextEncoding::Utf16Le
    } else if g[0] == 1 {
        TextEncoding::Utf8
    } else {
        return Err(Error::InvalidTextEncoding(g[0]));
    };
    if g[1] > 4 {
        return Err(Error::InvalidAdditionalCount(g[1]));
    }
    let vertex_index_size = index_size(g[2])?;
    let texture_index_size = index_size(g[3])?;
    let material_index_size = index_size(g[4])?;
    let bone_index_size = index_size(g[5])?;
    let morph_index_size = index_size(g[6])?;
    let rigid_body_index_size = index_size(g[7])?;
    Ok(
        Settings {
            text_encoding,
            additional_vec4_count: g[1],
            vertex_index_size,
            texture_index_size,
            material_index_size,
            bone_index_size,
            morph_index_size,
            rigid_body_index_size,
        },
    )
}

/// The four bytes `P`, `M`, `X`, space that open every file.
pub open spec fn signature_ok(b: Seq<u8>) -> bool {
    b[0] == 0x50 && b[1] == 0x4d && b[2] == 0x58 && b[3] == 0x20
}

/// What the header holds besides the configuration.
pub struct HeaderView {
    pub version: u32,
    pub model_local_name: Seq<char>,
    pub model_universal_name: Seq<char>,
    pub local_comment: Seq<char>,
    pub universal_comment: Seq<char>,
}

/// The header at the start of `b`: signature, version, configuration bytes and four texts.
/// Gives the configuration, the rest of the header and the position after it.
pub open spec fn parse_header(b: Seq<u8>) -> Result<(Settings, HeaderView, int), Error> {
    if !fits(b, 0, 4) {
        Err(Error::UnexpectedEnd)
    } else if !signature_ok(b) {
        Err(Error::InvalidSignature)
    } else if !fits(b, 4, 4) {
        Err(Error::UnexpectedEnd)
    } else if le_u32(b, 4) != VERSION_2_0 && le_u32(b, 4) != VERSION_2_1 {
        Err(Error::UnsupportedVersion(le_u32(b, 4) as u32))
    } else if !fits(b, 8, 1) {
        Err(Error::UnexpectedEnd)
    } else if b[8] < 8 {
        Err(Error::InvalidGlobalCount(b[8]))
    } else if !fits(b, 9, b[8] as int) {
        Err(Error::UnexpectedEnd)
    } else {
        match settings_of(b.subrange(9, 17)) {
            Err(e) => Err(e),
            Ok(s) => {
                let enc = s.text_encoding;
                match parse_text(b, 9 + b[8], enc) {
                    Err(e) => Err(e),
                    Ok((n1, p1)) => match parse_text(b, p1, enc) {
                        Err(e) => Err(e),
                        Ok((n2, p2)) => match parse_text(b, p2, enc) {
                            Err(e) => Err(e),
                            Ok((c1, p3)) => match parse_text(b, p3, enc) {
                                Err(e) => Err(e),
                                Ok((c2, p4)) => Ok(
                                    (
                                        s,
                                        HeaderView {
                                            version: le_u32(b, 4) as u32,
                                            model_local_name: n1,
                                            model_universal_name: n2,
                                            local_comment: c1,
                                            universal_comment: c2,
                                        },
                                        p4,
                                    ),
                                ),
                            },
                        },
                    },
                }
            },
        }
    }
}

/// The first reader of the chain: the decoded header, and the source positioned after it.
pub struct HeaderReader {
    pub settings: Settings,
    /// Bit pattern of the version float.
    pub version: u32,
    pub model_local_name: String,
    pub model_universal_name: String,
    pub local_comment: String,
    pub universal_comment: String,
    /// The byte source, positioned after the header.
    pub read: Source,
}

impl HeaderReader {
    pub open spec fn view_header(&self) -> HeaderView {
        HeaderView {
            version: self.version,
            model_local_name: self.model_local_name@,
            model_universal_name: self.model_universal_name@,
            local_comment: self.local_comment@,
            universal_comment: self.universal_comment@,
        }
    }

    /// Decodes the header at the start of `data`.
    pub fn new(data: Vec<u8>) -> (r: Result<HeaderReader, Error>)
        ensures
            match parse_header(data@) {
                Ok((s, h, e)) => r is Ok && r->Ok_0.settings == s && r->Ok_0.view_header() == h
                    && r->Ok_0.read.bytes() == data@
                    && r->Ok_0.read.position() == e,
                Err(err) => r is Err && r->Err_0 == err,
            },
    {
        let mut read = Source::new(data);
        let sig = read.read_bytes(4)?;
        if !(sig[0] == 0x50 && sig[1] == 0x4d && sig[2] == 0x58 && sig[3] == 0x20) {
            return Err(Error::InvalidSignature);
        }
        let version = read.read_u32()?;
        if version != VERSION_2_0 && version != VERSION_2_1 {
            return Err(Error::UnsupportedVersion(version));
        }
        let n = read.read_u8()?;
        if n < 8 {
            return Err(Error::InvalidGlobalCount(n));
        }
        let globals = read.read_bytes(n as u32)?;
        proof {
            assert(globals@.subrange(0, 8) =~= data@.subrange(9, 17));
        }
        let settings = resolve_settings(&globals)?;
        let enc = settings.text_encoding;
        let model_local_name = read.read_text(enc)?;
        let model_universal_name = read.read_text(enc)?;
        let local_comment = read.read_text(enc)?;
        let universal_comment = read.read_text(enc)?;
        Ok(
            HeaderReader {
                settings,
                version,
                model_local_name,
                model_universal_name,
                local_comment,
                universal_comment,
                read,
            },
        )
    }
}

} // verus!
