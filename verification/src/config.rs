use vstd::prelude::*;

verus! {

/// Storage method of interlaced video, as the device numbers it.
#[derive(Clone, Copy, Debug, PartialEq, Eq, Structural)]
pub enum Field {
    /// Progressive frames: no fields at all.
    Progressive,
    Top,
    Bottom,
    Interlaced,
    SeqTB,
    SeqBT,
    Alternate,
    InterlacedTB,
    InterlacedBT,
}

impl Field {
    /// The number that stands for this field order in a device request.
    pub open spec fn spec_code(self) -> u32 {
        match self {
            Field::Progressive => 1,
            Field::Top => 2,
            Field::Bottom => 3,
            Field::Interlaced => 4,
            Field::SeqTB => 5,
            Field::SeqBT => 6,
            Field::Alternate => 7,
            Field::InterlacedTB => 8,
            Field::InterlacedBT => 9,
        }
    }

    #[verifier::when_used_as_spec(spec_code)]
    pub fn code(self) -> (r: u32)
        ensures
            r == self.spec_code(),
    {
        match self {
            Field::Progressive => 1,
            Field::Top => 2,
            Field::Bottom => 3,
            Field::Interlaced => 4,
            Field::SeqTB => 5,
            Field::SeqBT => 6,
            Field::Alternate => 7,
            Field::InterlacedTB => 8,
            Field::InterlacedBT => 9,
        }
    }
}

/// What a session is asked to negotiate with the device.
#[derive(Clone, Copy, Debug)]
pub struct Config<'a> {
    /// Numerator and denominator of the frame interval, in seconds per
    /// frame. Default is `(1, 10)`.
    pub interval: (u32, u32),
    /// Width and height of a frame. Default is `(640, 480)`.
    pub resolution: (u32, u32),
    /// FourCC of the pixel format (e.g. `b"RGB3"`). Case matters.
    /// Default is `b"YUYV"`.
    pub format: &'a [u8],
    /// Storage method of interlaced video. Default is progressive.
    pub field: Field,
    /// Number of buffers in the queue of the camera. Default is `2`.
    pub nbuffers: u32,
}

impl<'a> Default for Config<'a> {
    fn default() -> (c: Config<'a>)
        ensures
            c.interval == (1u32, 10u32),
            c.resolution == (640u32, 480u32),
            c.format@ == seq![89u8, 85u8, 89u8, 86u8],
            c.field == Field::Progressive,
            c.nbuffers == 2,
    {
        Config {
            interval: (1, 10),
            resolution: (640, 480),
            format: &[89u8, 85u8, 89u8, 86u8],
            field: Field::Progressive,
            nbuffers: 2,
        }
    }
}

} // verus!
