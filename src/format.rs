//! Sample formats and their native integer tags.
use vstd::prelude::*;

verus! {

/// Native tag of unsigned 8-bit packed samples; the planar variant of each
/// width is its packed tag plus `PLANAR_OFFSET`.
pub const TAG_U8: i32 = 0;
pub const TAG_S16: i32 = 1;
pub const TAG_S32: i32 = 2;
pub const TAG_FLT: i32 = 3;
pub const TAG_DBL: i32 = 4;
pub const PLANAR_OFFSET: i32 = 5;

/// Width and numeric kind of a sample; the flag is `true` for the planar
/// (one segment per channel) layout and `false` for the packed layout.
#[derive(Clone, Copy, Debug, PartialEq, Eq, Structural)]
pub enum SampleFormat {
    U8(bool),
    S16(bool),
    S32(bool),
    Float(bool),
    Double(bool),
}

/// The format that a native tag stands for, if any.
pub open spec fn format_of_tag(tag: int) -> Option<SampleFormat> {
    if 0 <= tag < 10 {
        let planar = tag >= PLANAR_OFFSET;
        let width = tag % (PLANAR_OFFSET as int);
        Some(
            if width == TAG_U8 {
                SampleFormat::U8(planar)
            } else if width == TAG_S16 {
                SampleFormat::S16(planar)
            } else if width == TAG_S32 {
                SampleFormat::S32(planar)
            } else if width == TAG_FLT {
                SampleFormat::Float(planar)
            } else {
                SampleFormat::Double(planar)
            },
        )
    } else {
        None
    }
}

impl SampleFormat {
    pub open spec fn planar(self) -> bool {
        match self {
            SampleFormat::U8(p) => p,
            SampleFormat::S16(p) => p,
            SampleFormat::S32(p) => p,
            SampleFormat::Float(p) => p,
            SampleFormat::Double(p) => p,
        }
    }

    /// Packed tag of the format's width.
    pub open spec fn width_tag(self) -> int {
        match self {
            SampleFormat::U8(_) => TAG_U8 as int,
            SampleFormat::S16(_) => TAG_S16 as int,
            SampleFormat::S32(_) => TAG_S32 as int,
            SampleFormat::Float(_) => TAG_FLT as int,
            SampleFormat::Double(_) => TAG_DBL as int,
        }
    }

    pub open spec fn tag(self) -> int {
        if self.planar() {
            self.width_tag() + PLANAR_OFFSET
        } else {
            self.width_tag()
        }
    }

    /// Decodes a native format tag; `None` for every tag outside the ten
    /// known ones.
    pub fn from_ffi(tag: i32) -> (r: Option<SampleFormat>)
        ensures
            r == format_of_tag(tag as int),
    {
        if tag < 0 || tag >= 2 * PLANAR_OFFSET {
            return None;
        }
        let planar = tag >= PLANAR_OFFSET;
        let width = tag % PLANAR_OFFSET;
        Some(
            if width == TAG_U8 {
                SampleFormat::U8(planar)
            } else if width == TAG_S16 {
                SampleFormat::S16(planar)
            } else if width == TAG_S32 {
                SampleFormat::S32(planar)
            } else if width == TAG_FLT {
                SampleFormat::Float(planar)
            } else {
                SampleFormat::Double(planar)
            },
        )
    }

    /// The native tag of this format.
    pub fn to_ffi(self) -> (r: i32)
        ensures
            r as int == self.tag(),
            0 <= r < 10,
    {
        let w = match self {
            SampleFormat::U8(_) => TAG_U8,
            SampleFormat::S16(_) => TAG_S16,
            SampleFormat::S32(_) => TAG_S32,
            SampleFormat::Float(_) => TAG_FLT,
            SampleFormat::Double(_) => TAG_DBL,
        };
        if self.is_planar() {
            w + PLANAR_OFFSET
        } else {
            w
        }
    }

    /// Whether each channel has a buffer segment of its own.
    pub fn is_planar(&self) -> (r: bool)
        ensures
            r == self.planar(),
    {
        match self {
            SampleFormat::U8(p) => *p,
            SampleFormat::S16(p) => *p,
            SampleFormat::S32(p) => *p,
            SampleFormat::Float(p) => *p,
            SampleFormat::Double(p) => *p,
        }
    }
}

/// Encoding a format and decoding the tag gives the format back, and decoding
/// a known tag and encoding the format gives the tag back; every other tag
/// decodes to nothing.
pub proof fn lemma_tag_round_trip(f: SampleFormat, tag: i32)
    ensures
        format_of_tag(f.tag()) == Some(f),
        format_of_tag(tag as int) matches Some(g) ==> g.tag() == tag as int,
        format_of_tag(tag as int) is None <==> (tag < 0 || tag >= 10),
{
}

} // verus!
