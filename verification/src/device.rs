use vstd::prelude::*;

verus! {

/// Flag of a format description: the format is compressed.
pub const FMT_FLAG_COMPRESSED: u32 = 1;

/// Flag of a format description: the format is transcoded from another one.
pub const FMT_FLAG_EMULATED: u32 = 2;

/// Kind of a frame size entry that names one width and height.
pub const FRMSIZE_TYPE_DISCRETE: u32 = 1;

/// Kind of a frame interval entry that names one interval.
pub const FRMIVAL_TYPE_DISCRETE: u32 = 1;

/// A memory region that the device shares with the process: where it was
/// mapped and how long it is.
#[derive(Clone, Copy, Debug, PartialEq, Eq, Structural)]
pub struct Region {
    pub addr: usize,
    pub length: usize,
}

/// One thing to ask of the device. The session decides what to ask; whoever
/// drives it carries the request out and hands the answer back.
#[derive(Clone, Copy, Debug, PartialEq, Eq, Structural)]
pub enum Request {
    /// Propose a resolution, pixel format and field order.
    SetFormat { width: u32, height: u32, fourcc: u32, field: u32 },
    /// Propose a frame interval.
    SetInterval { numerator: u32, denominator: u32 },
    /// Have the device allocate `count` buffers.
    RequestBuffers { count: u32 },
    /// Ask for the length and offset of the buffer `index`.
    QueryBuffer { index: u32 },
    /// Map `length` bytes of device memory at `offset` into the process.
    MapRegion { length: u32, offset: u32 },
    /// Hand the buffer `index` to the device to be filled.
    Enqueue { index: u32 },
    /// Start capturing into the enqueued buffers.
    StreamOn,
    /// Wait for a filled buffer and take it from the device.
    Dequeue,
    /// Stop capturing.
    StreamOff,
    /// Remove a mapped region from the process.
    UnmapRegion { region: Region },
    /// Close the device handle.
    Close,
    /// Describe the pixel format number `index`.
    EnumFormat { index: u32 },
    /// Describe the frame size number `index` of a pixel format.
    EnumFrameSize { index: u32, fourcc: u32 },
    /// Describe the frame interval number `index` of a pixel format at a
    /// resolution.
    EnumFrameInterval { index: u32, fourcc: u32, width: u32, height: u32 },
}

/// What the device answers when a request succeeds.
#[derive(Debug, PartialEq, Eq)]
pub enum Reply {
    /// Nothing but success: to `RequestBuffers`, `Enqueue`, `StreamOn`,
    /// `StreamOff`, `UnmapRegion` and `Close`.
    Done,
    /// The format the device settled on, to `SetFormat`.
    Format { width: u32, height: u32, fourcc: u32, field: u32 },
    /// The interval the device settled on, to `SetInterval`.
    Interval { numerator: u32, denominator: u32 },
    /// Where a buffer lies in device memory, to `QueryBuffer`.
    Buffer { length: u32, offset: u32 },
    /// Where the region was mapped, to `MapRegion`.
    Mapped { addr: usize },
    /// The buffer that was filled and how much of it, to `Dequeue`.
    Dequeued { index: u32, bytesused: u32 },
    /// A pixel format, to `EnumFormat`. The description is a C string in a
    /// fixed buffer, as the device wrote it.
    FormatDesc { fourcc: u32, description: Vec<u8>, flags: u32 },
    /// A frame size, to `EnumFrameSize`.
    FrameSize { kind: u32, width: u32, height: u32 },
    /// A frame interval, to `EnumFrameInterval`.
    FrameInterval { kind: u32, numerator: u32, denominator: u32 },
}

/// How an operation goes on: with a request to the device, or no further.
#[derive(Debug, PartialEq, Eq)]
pub enum Step<T> {
    /// Carry this request out and hand its answer back.
    Perform(Request),
    /// The operation has ended with this result.
    Done(T),
}

} // verus!
