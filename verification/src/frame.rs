use crate::device::{Region, Request};
use vstd::prelude::*;

verus! {

/// One captured frame: a window into a buffer of the pool, lent by the
/// session until the frame is released. The window is the first `used`
/// bytes of `region`.
#[derive(Debug)]
pub struct Frame<'a> {
    /// The buffer that holds the frame.
    pub region: &'a Region,
    /// How many bytes of the buffer the device has filled.
    pub used: usize,
    /// Width and height of the frame.
    pub resolution: (u32, u32),
    /// FourCC of the format.
    pub format: [u8; 4],
    /// The device handle that the buffer goes back to.
    pub fd: i32,
    /// The buffer's index in the pool.
    pub index: u32,
}

/// What a `Frame` holds, as mathematics.
pub struct FrameView {
    pub region: Region,
    pub used: usize,
    pub resolution: (u32, u32),
    pub format: Seq<u8>,
    /// The device handle that the buffer goes back to.
    pub fd: i32,
    /// The buffer's index in the pool.
    pub index: u32,
}

impl FrameView {
    /// The request that gives the frame's buffer back to the device.
    pub open spec fn release(self) -> Request {
        Request::Enqueue { index: self.index }
    }
}

impl<'a> View for Frame<'a> {
    type V = FrameView;

    open spec fn view(&self) -> FrameView {
        FrameView {
            region: *self.region,
            used: self.used,
            resolution: self.resolution,
            format: self.format@,
            fd: self.fd,
            index: self.index,
        }
    }
}

impl<'a> Frame<'a> {
    /// Ends the frame and names the one request that puts its buffer back
    /// into the device's rotation.
    pub fn release(self) -> (r: Request)
        ensures
            r == self@.release(),
    {
        Request::Enqueue { index: self.index }
    }
}

} // verus!
