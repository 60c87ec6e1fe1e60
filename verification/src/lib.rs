//! Capture sessions on a video device, without the device.
//!
//! A `Camera` negotiates a format with a capture device, has a pool of
//! buffers allocated and mapped, streams frames into them and hands them
//! out as `Frame`s. It decides what to ask of the device and what to make
//! of each answer, and leaves the asking to its caller: every operation
//! yields `Request`s to carry out, one at a time, and is resumed with the
//! device's answer to each.

use vstd::prelude::*;

pub mod camera;
pub mod catalog;
pub mod config;
pub mod device;
pub mod error;
pub mod frame;
pub mod laws;
pub mod listing;
pub mod scan;
pub mod session;
pub mod text;

pub use camera::Camera;
pub use catalog::{FormatInfo, ModeInfo};
pub use config::{Config, Field};
pub use device::{Region, Reply, Request, Step};
pub use error::{Error, IoError};
pub use frame::Frame;
pub use scan::FormatScan;
pub use session::State;

verus! {

/// Alias for `Camera::new()`.
pub fn new(fd: i32) -> (r: Camera)
    ensures
        r@ == session::CameraView::fresh(fd),
        r@.wf(),
{
    Camera::new(fd)
}

} // verus!
