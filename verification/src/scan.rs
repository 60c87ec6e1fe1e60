use crate::catalog::{FormatInfo, FormatView, ModeInfo, ModeView};
use crate::device::{Reply, Request, Step, FRMIVAL_TYPE_DISCRETE, FRMSIZE_TYPE_DISCRETE};
use crate::error::IoError;
use crate::text::c_string;
use vstd::prelude::*;
use vstd::utf8::valid_utf8;

verus! {

/// Which list of the device an enumeration is walking.
#[derive(Clone, Copy, Debug, PartialEq, Eq, Structural)]
pub enum Level {
    /// The pixel formats.
    Formats,
    /// The frame sizes of one pixel format.
    Sizes,
    /// The frame intervals of one frame size.
    Intervals,
    /// None: the enumeration has ended.
    Finished,
}

/// How an enumeration goes on, with the catalog as mathematics.
pub type ScanStep = Step<Result<Seq<FormatView>, IoError>>;

impl View for Step<Result<Vec<FormatInfo>, IoError>> {
    type V = ScanStep;

    open spec fn view(&self) -> ScanStep {
        match *self {
            Step::Perform(request) => Step::Perform(request),
            Step::Done(Ok(formats)) => Step::Done(Ok(formats@.map_values(|f: FormatInfo| f@))),
            Step::Done(Err(e)) => Step::Done(Err(e)),
        }
    }
}

/// An enumeration of what the device offers, between two requests: every
/// pixel format, for each format every discrete frame size, and for each
/// size every discrete frame interval.
///
/// Each list is read entry by entry, from index 0 on, until the device
/// rejects the index as invalid. Any other failure ends the enumeration.
pub struct FormatScan {
    level: Level,
    found: Vec<FormatInfo>,
    format: FormatInfo,
    mode: ModeInfo,
    fourcc: u32,
    format_index: u32,
    size_index: u32,
    interval_index: u32,
}

/// What a `FormatScan` holds, as mathematics.
pub struct ScanView {
    /// The list that the pending request reads from.
    pub level: Level,
    /// The formats that are complete.
    pub found: Seq<FormatView>,
    /// The format whose frame sizes are being read.
    pub format: FormatView,
    /// The frame size whose intervals are being read.
    pub mode: ModeView,
    /// The device's number for `format`.
    pub fourcc: u32,
    /// Index of the pending or latest request for a format.
    pub format_index: u32,
    /// Index of the pending or latest request for a frame size.
    pub size_index: u32,
    /// Index of the pending or latest request for a frame interval.
    pub interval_index: u32,
}

impl View for FormatScan {
    type V = ScanView;

    closed spec fn view(&self) -> ScanView {
        ScanView {
            level: self.level,
            found: self.found@.map_values(|f: FormatInfo| f@),
            format: self.format@,
            mode: self.mode@,
            fourcc: self.fourcc,
            format_index: self.format_index,
            size_index: self.size_index,
            interval_index: self.interval_index,
        }
    }
}

impl ModeView {
    /// The frame size that stands in while none is being read.
    pub open spec fn blank() -> ModeView {
        ModeView { resolution: (0u32, 0u32), intervals: Seq::empty() }
    }
}

impl FormatView {
    /// The format that stands in while none is being read.
    pub open spec fn blank() -> FormatView {
        FormatView {
            format: seq![0u8, 0u8, 0u8, 0u8],
            description: Seq::empty(),
            compressed: false,
            emulated: false,
            modes: Seq::empty(),
        }
    }
}

impl ScanView {
    /// An enumeration that has asked for the first pixel format.
    pub open spec fn begin() -> ScanView {
        ScanView {
            level: Level::Formats,
            found: Seq::empty(),
            format: FormatView::blank(),
            mode: ModeView::blank(),
            fourcc: 0,
            format_index: 0,
            size_index: 0,
            interval_index: 0,
        }
    }

    /// The request that an enumeration begins with.
    pub open spec fn first_request() -> Request {
        Request::EnumFormat { index: 0 }
    }

    /// Whether `reply` can be the answer to the pending request: a failure,
    /// or an entry of the list that is being read. The description of a
    /// pixel format must be text.
    pub open spec fn expects(self, reply: Result<Reply, IoError>) -> bool {
        match self.level {
            Level::Formats => match reply {
                Err(_) => true,
                Ok(Reply::FormatDesc { description, .. }) => valid_utf8(c_string(description@)),
                Ok(_) => false,
            },
            Level::Sizes => reply is Err || reply matches Ok(Reply::FrameSize { .. }),
            Level::Intervals => reply is Err || reply matches Ok(Reply::FrameInterval { .. }),
            Level::Finished => false,
        }
    }

    /// The enumeration ends with `result`.
    pub open spec fn finish(self, result: Result<Seq<FormatView>, IoError>) -> (ScanView, ScanStep) {
        (ScanView { level: Level::Finished, found: Seq::empty(), ..self }, Step::Done(result))
    }

    /// The current format has all its frame sizes: it joins the catalog, and
    /// the next format is asked for. After the last index that a request can
    /// carry, the catalog is complete.
    pub open spec fn close_format(self) -> (ScanView, ScanStep) {
        let found = self.found.push(self.format);
        let next = ScanView { found, format: FormatView::blank(), ..self };
        if self.format_index == u32::MAX {
            next.finish(Ok(found))
        } else {
            let index = (self.format_index + 1) as u32;
            (
                ScanView { level: Level::Formats, format_index: index, ..next },
                Step::Perform(Request::EnumFormat { index }),
            )
        }
    }

    /// The next frame size of the current format is asked for. After the
    /// last index that a request can carry, the format is complete.
    pub open spec fn next_size(self) -> (ScanView, ScanStep) {
        if self.size_index == u32::MAX {
            self.close_format()
        } else {
            let index = (self.size_index + 1) as u32;
            (
                ScanView { level: Level::Sizes, size_index: index, ..self },
                Step::Perform(Request::EnumFrameSize { index, fourcc: self.fourcc }),
            )
        }
    }

    /// The current frame size has all its intervals: it joins the current
    /// format, and the next frame size is asked for.
    pub open spec fn close_mode(self) -> (ScanView, ScanStep) {
        let format = FormatView { modes: self.format.modes.push(self.mode), ..self.format };
        (ScanView { format, mode: ModeView::blank(), ..self }).next_size()
    }

    /// The next interval of the current frame size is asked for. After the
    /// last index that a request can carry, the frame size is complete.
    pub open spec fn next_interval(self) -> (ScanView, ScanStep) {
        if self.interval_index == u32::MAX {
            self.close_mode()
        } else {
            let index = (self.interval_index + 1) as u32;
            (
                ScanView { level: Level::Intervals, interval_index: index, ..self },
                Step::Perform(
                    Request::EnumFrameInterval {
                        index,
                        fourcc: self.fourcc,
                        width: self.mode.resolution.0,
                        height: self.mode.resolution.1,
                    },
                ),
            )
        }
    }

    /// The device rejected the index of the pending request: the list that
    /// was being read has ended.
    pub open spec fn end_of_list(self) -> (ScanView, ScanStep) {
        match self.level {
            Level::Formats => self.finish(Ok(self.found)),
            Level::Sizes => self.close_format(),
            Level::Intervals => self.close_mode(),
            Level::Finished => self.finish(Ok(self.found)),
        }
    }

    /// The device described a pixel format: its frame sizes are read next.
    pub open spec fn enter_format(self, fourcc: u32, desc: Seq<u8>, flags: u32) -> (
        ScanView,
        ScanStep,
    ) {
        (
            ScanView {
                level: Level::Sizes,
                format: FormatView::from_desc(fourcc, desc, flags),
                fourcc,
                size_index: 0,
                ..self
            },
            Step::Perform(Request::EnumFrameSize { index: 0, fourcc }),
        )
    }

    /// The device described a frame size. A discrete one is kept and its
    /// intervals are read next; any other kind is passed over.
    pub open spec fn enter_size(self, kind: u32, width: u32, height: u32) -> (ScanView, ScanStep) {
        if kind != FRMSIZE_TYPE_DISCRETE {
            self.next_size()
        } else {
            (
                ScanView {
                    level: Level::Intervals,
                    mode: ModeView { resolution: (width, height), intervals: Seq::empty() },
                    interval_index: 0,
                    ..self
                },
                Step::Perform(
                    Request::EnumFrameInterval { index: 0, fourcc: self.fourcc, width, height },
                ),
            )
        }
    }

    /// The device described a frame interval. A discrete one joins the
    /// current frame size; any other kind is passed over.
    pub open spec fn enter_interval(self, kind: u32, numerator: u32, denominator: u32) -> (
        ScanView,
        ScanStep,
    ) {
        if kind == FRMIVAL_TYPE_DISCRETE {
            let mode = ModeView {
                intervals: self.mode.intervals.push((numerator, denominator)),
                ..self.mode
            };
            (ScanView { mode, ..self }).next_interval()
        } else {
            self.next_interval()
        }
    }

    /// The enumeration after the answer `reply` to its pending request, and
    /// how it goes on.
    pub open spec fn answer(self, reply: Result<Reply, IoError>) -> (ScanView, ScanStep) {
        match reply {
            Err(e) => if e.invalid_argument() {
                self.end_of_list()
            } else {
                self.finish(Err(e))
            },
            Ok(Reply::FormatDesc { fourcc, description, flags }) => self.enter_format(
                fourcc,
                description@,
                flags,
            ),
            Ok(Reply::FrameSize { kind, width, height }) => self.enter_size(kind, width, height),
            Ok(Reply::FrameInterval { kind, numerator, denominator }) => self.enter_interval(
                kind,
                numerator,
                denominator,
            ),
            Ok(_) => self.finish(Ok(self.found)),
        }
    }
}

impl FormatScan {
    /// A format that holds nothing, to stand in while none is being read.
    fn blank_format() -> (r: FormatInfo)
        ensures
            r@ == FormatView::blank(),
    {
        let r = FormatInfo {
            format: [0u8, 0u8, 0u8, 0u8],
            description: String::new(),
            compressed: false,
            emulated: false,
            modes: Vec::new(),
        };
        proof {
            assert(r.format@ =~= seq![0u8, 0u8, 0u8, 0u8]);
            assert(r@.modes =~= Seq::<ModeView>::empty());
        }
        r
    }

    /// Begins an enumeration: the scan, and the request to carry out first.
    pub fn begin() -> (r: (FormatScan, Request))
        ensures
            r.0@ == ScanView::begin(),
            r.1 == ScanView::first_request(),
    {
        let scan = FormatScan {
            level: Level::Formats,
            found: Vec::new(),
            format: Self::blank_format(),
            mode: ModeInfo::new((0, 0)),
            fourcc: 0,
            format_index: 0,
            size_index: 0,
            interval_index: 0,
        };
        proof {
            assert(scan@.found =~= Seq::<FormatView>::empty());
        }
        (scan, Request::EnumFormat { index: 0 })
    }

    /// The list that the pending request reads from.
    pub fn level(&self) -> (r: Level)
        ensures
            r == self@.level,
    {
        self.level
    }

    /// Whether `reply` can be handed to `advance`.
    pub fn expects(&self, reply: &Result<Reply, IoError>) -> (r: bool)
        ensures
            r == self@.expects(*reply),
    {
        match self.level {
            Level::Formats => match reply {
                Err(_) => true,
                Ok(Reply::FormatDesc { description, .. }) => FormatInfo::describable(
                    description.as_slice(),
                ),
                Ok(_) => false,
            },
            Level::Sizes => match reply {
                Err(_) => true,
                Ok(Reply::FrameSize { .. }) => true,
                Ok(_) => false,
            },
            Level::Intervals => match reply {
                Err(_) => true,
                Ok(Reply::FrameInterval { .. }) => true,
                Ok(_) => false,
            },
            Level::Finished => false,
        }
    }

    fn finish(&mut self, failure: Option<IoError>) -> (step: Step<Result<Vec<FormatInfo>, IoError>>)
        ensures
            (final(self)@, step@) == old(self)@.finish(
                match failure {
                    Some(e) => Err(e),
                    None => Ok(old(self)@.found),
                },
            ),
    {
        let mut found: Vec<FormatInfo> = Vec::new();
        core::mem::swap(&mut self.found, &mut found);
        self.level = Level::Finished;
        proof {
            assert(self@.found =~= Seq::<FormatView>::empty());
        }
        match failure {
            Some(e) => Step::Done(Err(e)),
            None => Step::Done(Ok(found)),
        }
    }

    fn close_format(&mut self) -> (step: Step<Result<Vec<FormatInfo>, IoError>>)
        ensures
            (final(self)@, step@) == old(self)@.close_format(),
    {
        let mut format = Self::blank_format();
        core::mem::swap(&mut self.format, &mut format);
        self.found.push(format);
        proof {
            assert(self@.found =~= old(self)@.found.push(old(self)@.format));
        }
        if self.format_index == u32::MAX {
            self.finish(None)
        } else {
            self.format_index = self.format_index + 1;
            self.level = Level::Formats;
            Step::Perform(Request::EnumFormat { index: self.format_index })
        }
    }

    fn next_size(&mut self) -> (step: Step<Result<Vec<FormatInfo>, IoError>>)
        ensures
            (final(self)@, step@) == old(self)@.next_size(),
    {
        if self.size_index == u32::MAX {
            self.close_format()
        } else {
            self.size_index = self.size_index + 1;
            self.level = Level::Sizes;
            Step::Perform(Request::EnumFrameSize { index: self.size_index, fourcc: self.fourcc })
        }
    }

    fn close_mode(&mut self) -> (step: Step<Result<Vec<FormatInfo>, IoError>>)
        ensures
            (final(self)@, step@) == old(self)@.close_mode(),
    {
        let mut mode = ModeInfo::new((0, 0));
        core::mem::swap(&mut self.mode, &mut mode);
        self.format.modes.push(mode);
        proof {
            assert(self@.format.modes =~= old(self)@.format.modes.push(old(self)@.mode));
        }
        self.next_size()
    }

    fn next_interval(&mut self) -> (step: Step<Result<Vec<FormatInfo>, IoError>>)
        ensures
            (final(self)@, step@) == old(self)@.next_interval(),
    {
        if self.interval_index == u32::MAX {
            self.close_mode()
        } else {
            self.interval_index = self.interval_index + 1;
            self.level = Level::Intervals;
            Step::Perform(
                Request::EnumFrameInterval {
                    index: self.interval_index,
                    fourcc: self.fourcc,
                    width: self.mode.resolution.0,
                    height: self.mode.resolution.1,
                },
            )
        }
    }

    /// Takes the device's answer to the pending request and decides how the
    /// enumeration goes on: with the next request, or with its result. An
    /// index that the device rejects as invalid ends the list being read;
    /// any other failure ends the enumeration with that failure.
    pub fn advance(&mut self, reply: Result<Reply, IoError>) -> (step: Step<
        Result<Vec<FormatInfo>, IoError>,
    >)
        requires
            old(self)@.expects(reply),
        ensures
            (final(self)@, step@) == old(self)@.answer(reply),
    {
        match reply {
            Err(e) => {
                if e.is_invalid_argument() {
                    match self.level {
                        Level::Formats => self.finish(None),
                        Level::Sizes => self.close_format(),
                        Level::Intervals => self.close_mode(),
                        Level::Finished => unreached(),
                    }
                } else {
                    self.finish(Some(e))
                }
            },
            Ok(Reply::FormatDesc { fourcc, description, flags }) => {
                self.format = FormatInfo::new(fourcc, description.as_slice(), flags);
                self.fourcc = fourcc;
                self.size_index = 0;
                self.level = Level::Sizes;
                Step::Perform(Request::EnumFrameSize { index: 0, fourcc })
            },
            Ok(Reply::FrameSize { kind, width, height }) => {
                if kind != FRMSIZE_TYPE_DISCRETE {
                    self.next_size()
                } else {
                    self.mode = ModeInfo::new((width, height));
                    self.interval_index = 0;
                    self.level = Level::Intervals;
                    Step::Perform(
                        Request::EnumFrameInterval { index: 0, fourcc: self.fourcc, width, height },
                    )
                }
            },
            Ok(Reply::FrameInterval { kind, numerator, denominator }) => {
                if kind == FRMIVAL_TYPE_DISCRETE {
                    self.mode.intervals.push((numerator, denominator));
                }
                self.next_interval()
            },
            Ok(_) => unreached(),
        }
    }
}

} // verus!
