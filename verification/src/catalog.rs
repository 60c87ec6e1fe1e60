use crate::device::{FMT_FLAG_COMPRESSED, FMT_FLAG_EMULATED};
use crate::text::{c_string, c_string_bytes, decimal, string_from_utf8, u32_to_string};
use vstd::prelude::*;
use vstd::utf8::{decode_utf8, valid_utf8};

verus! {

/// The number that the four bytes `b` spell, lowest byte first.
pub open spec fn fourcc_of(b: Seq<u8>) -> u32
    recommends
        b.len() >= 4,
{
    (b[0] as int + 0x100 * b[1] as int + 0x1_0000 * b[2] as int + 0x100_0000 * b[3] as int) as u32
}

/// The four bytes that spell the number `code`, lowest byte first.
pub open spec fn fourcc_bytes(code: u32) -> Seq<u8> {
    seq![
        (code % 0x100) as u8,
        (code / 0x100 % 0x100) as u8,
        (code / 0x1_0000 % 0x100) as u8,
        (code / 0x100_0000) as u8,
    ]
}

/// Spelling a number out and reading it back gives the number, and the
/// other way round.
pub proof fn lemma_fourcc_round_trip(b: Seq<u8>, code: u32)
    requires
        b.len() == 4,
    ensures
        fourcc_bytes(fourcc_of(b)) == b,
        fourcc_of(fourcc_bytes(code)) == code,
{
    let (b0, b1, b2, b3) = (b[0], b[1], b[2], b[3]);
    let n: u32 = fourcc_of(b);
    assert(n == (b0 as u32 + 0x100 * (b1 as u32) + 0x1_0000 * (b2 as u32) + 0x100_0000 * (
    b3 as u32)) as u32);
    assert(n % 0x100 == b0 && n / 0x100 % 0x100 == b1 && n / 0x1_0000 % 0x100 == b2 && n
        / 0x100_0000 == b3) by (bit_vector)
        requires
            n == (b0 as u32 + 0x100 * (b1 as u32) + 0x1_0000 * (b2 as u32) + 0x100_0000 * (
            b3 as u32)) as u32,
    ;
    assert(fourcc_bytes(n) =~= b);
    assert(code % 0x100 < 0x100 && code / 0x100 % 0x100 < 0x100 && code / 0x1_0000 % 0x100 < 0x100
        && code / 0x100_0000 < 0x100 && code == (code % 0x100 + 0x100 * (code / 0x100 % 0x100)
        + 0x1_0000 * (code / 0x1_0000 % 0x100) + 0x100_0000 * (code / 0x100_0000)) as u32)
        by (bit_vector);
}

/// A resolution that a pixel format can be captured at.
#[derive(Debug, PartialEq, Eq)]
pub struct ModeInfo {
    /// Width and height of the frame.
    pub resolution: (u32, u32),
    /// The frame intervals on offer, numerator and denominator each.
    pub intervals: Vec<(u32, u32)>,
}

/// What a `ModeInfo` holds, as mathematics.
pub struct ModeView {
    pub resolution: (u32, u32),
    pub intervals: Seq<(u32, u32)>,
}

impl View for ModeInfo {
    type V = ModeView;

    open spec fn view(&self) -> ModeView {
        ModeView { resolution: self.resolution, intervals: self.intervals@ }
    }
}

impl ModeInfo {
    pub fn new(resolution: (u32, u32)) -> (r: ModeInfo)
        ensures
            r@ == (ModeView { resolution, intervals: Seq::empty() }),
    {
        ModeInfo { resolution, intervals: Vec::new() }
    }

    /// The resolution as text: width and height in decimal with an `x`
    /// between them.
    pub fn to_text(&self) -> (r: String)
        ensures
            r@ == decimal(self.resolution.0 as nat) + "x"@ + decimal(self.resolution.1 as nat),
    {
        let mut r = u32_to_string(self.resolution.0);
        r.append("x");
        let height = u32_to_string(self.resolution.1);
        r.append(height.as_str());
        r
    }
}

/// A pixel format that the device offers.
#[derive(Debug, PartialEq, Eq)]
pub struct FormatInfo {
    /// FourCC of format (e.g. `b"H264"`).
    pub format: [u8; 4],
    /// Information about the format.
    pub description: String,
    /// Raw or compressed.
    pub compressed: bool,
    /// Whether it's transcoded from a different input format.
    pub emulated: bool,
    /// Resolutions and intervals for the format.
    pub modes: Vec<ModeInfo>,
}

/// What a `FormatInfo` holds, as mathematics.
pub struct FormatView {
    pub format: Seq<u8>,
    pub description: Seq<char>,
    pub compressed: bool,
    pub emulated: bool,
    pub modes: Seq<ModeView>,
}

impl View for FormatInfo {
    type V = FormatView;

    open spec fn view(&self) -> FormatView {
        FormatView {
            format: self.format@,
            description: self.description@,
            compressed: self.compressed,
            emulated: self.emulated,
            modes: self.modes@.map_values(|m: ModeInfo| m@),
        }
    }
}

impl FormatView {
    /// The entry that a device's description of a format stands for, before
    /// any of its modes is known.
    pub open spec fn from_desc(fourcc: u32, desc: Seq<u8>, flags: u32) -> FormatView {
        FormatView {
            format: fourcc_bytes(fourcc),
            description: decode_utf8(c_string(desc)),
            compressed: flags & FMT_FLAG_COMPRESSED != 0,
            emulated: flags & FMT_FLAG_EMULATED != 0,
            modes: Seq::empty(),
        }
    }
}

/// What is said of a format's flags when it is written out.
pub open spec fn flags_text(compressed: bool, emulated: bool) -> Seq<char> {
    if compressed && emulated {
        ", compressed, emulated"@
    } else if compressed {
        ", compressed"@
    } else if emulated {
        ", emulated"@
    } else {
        ""@
    }
}

impl FormatInfo {
    /// The four bytes that spell the FourCC number `code`, lowest byte
    /// first.
    pub fn spell(code: u32) -> (r: [u8; 4])
        ensures
            r@ == fourcc_bytes(code),
    {
        let r: [u8; 4] = [
            (code & 0xff) as u8,
            (code >> 8 & 0xff) as u8,
            (code >> 16 & 0xff) as u8,
            (code >> 24 & 0xff) as u8,
        ];
        proof {
            assert(code & 0xff == code % 0x100) by (bit_vector);
            assert(code >> 8 & 0xff == code / 0x100 % 0x100) by (bit_vector);
            assert(code >> 16 & 0xff == code / 0x1_0000 % 0x100) by (bit_vector);
            assert(code >> 24 & 0xff == code / 0x100_0000) by (bit_vector);
            assert(r@ =~= fourcc_bytes(code));
        }
        r
    }

    /// The FourCC in a vector of its own.
    fn format_bytes(&self) -> (r: Vec<u8>)
        ensures
            r@ == self.format@,
    {
        let mut bytes: Vec<u8> = Vec::new();
        bytes.push(self.format[0]);
        bytes.push(self.format[1]);
        bytes.push(self.format[2]);
        bytes.push(self.format[3]);
        assert(bytes@ =~= self.format@);
        bytes
    }

    /// Whether the FourCC is text, so that the format can be written out.
    pub fn is_printable(&self) -> (r: bool)
        ensures
            r == valid_utf8(self.format@),
    {
        string_from_utf8(self.format_bytes()).is_some()
    }

    /// The format as text: the FourCC, then in brackets the description and
    /// what the flags say.
    pub fn to_text(&self) -> (r: String)
        requires
            valid_utf8(self.format@),
        ensures
            r@ == decode_utf8(self.format@) + " ("@ + self.description@ + flags_text(
                self.compressed,
                self.emulated,
            ) + ")"@,
    {
        let mut r = match string_from_utf8(self.format_bytes()) {
            Some(s) => s,
            None => String::new(),
        };
        r.append(" (");
        r.append(self.description.as_str());
        r.append(
            match (self.compressed, self.emulated) {
                (true, true) => ", compressed, emulated",
                (true, false) => ", compressed",
                (false, true) => ", emulated",
                _ => "",
            },
        );
        r.append(")");
        r
    }

    /// Whether the C string in `desc` is text that a `FormatInfo` can hold.
    pub fn describable(desc: &[u8]) -> (r: bool)
        ensures
            r == valid_utf8(c_string(desc@)),
    {
        string_from_utf8(c_string_bytes(desc)).is_some()
    }

    pub fn new(fourcc: u32, desc: &[u8], flags: u32) -> (r: FormatInfo)
        requires
            valid_utf8(c_string(desc@)),
        ensures
            r@ == FormatView::from_desc(fourcc, desc@, flags),
    {
        let description = match string_from_utf8(c_string_bytes(desc)) {
            Some(s) => s,
            None => String::new(),
        };
        let r = FormatInfo {
            format: Self::spell(fourcc),
            description,
            compressed: flags & FMT_FLAG_COMPRESSED != 0,
            emulated: flags & FMT_FLAG_EMULATED != 0,
            modes: Vec::new(),
        };
        proof {
            assert(r@.modes =~= Seq::<ModeView>::empty());
        }
        r
    }

    /// Reads the first four bytes of `fmt` as a FourCC number.
    pub fn fourcc(fmt: &[u8]) -> (r: u32)
        requires
            fmt@.len() >= 4,
        ensures
            r == fourcc_of(fmt@),
    {
        let b0: u8 = fmt[0];
        let b1: u8 = fmt[1];
        let b2: u8 = fmt[2];
        let b3: u8 = fmt[3];
        proof {
            assert((b0 as u32 | (b1 as u32) << 8 | (b2 as u32) << 16 | (b3 as u32) << 24) == (b0 as u32
                + 0x100 * (b1 as u32) + 0x1_0000 * (b2 as u32) + 0x100_0000 * (b3 as u32)) as u32)
                by (bit_vector);
        }
        b0 as u32 | (b1 as u32) << 8 | (b2 as u32) << 16 | (b3 as u32) << 24
    }
}

} // verus!
