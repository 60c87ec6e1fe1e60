use crate::catalog::{fourcc_bytes, fourcc_of};
use crate::config::Config;
use crate::device::{Region, Reply, Request, Step};
use crate::error::{Error, IoError};
use crate::frame::FrameView;
use vstd::prelude::*;

verus! {

/// Where a session stands.
#[derive(Clone, Copy, Debug, PartialEq, Eq, Structural)]
pub enum State {
    /// Nothing negotiated yet. The only state in which a session can be
    /// started.
    Idle,
    /// Frames can be captured.
    Streaming,
    /// Stopped for good.
    Aborted,
}

/// What a session was asked to negotiate, as the device is told it.
#[derive(Clone, Copy, Debug, PartialEq, Eq)]
pub struct Plan {
    pub resolution: (u32, u32),
    pub fourcc: u32,
    pub field: u32,
    pub interval: (u32, u32),
    pub nbuffers: u32,
}

/// The request that a session is waiting on, if any.
#[derive(Clone, Copy, Debug, PartialEq, Eq)]
pub enum Phase {
    /// No request is pending.
    Rest,
    /// `SetFormat`, while starting.
    Format,
    /// `SetInterval`, while starting.
    Interval,
    /// `RequestBuffers`, while starting.
    Buffers,
    /// `QueryBuffer` for the buffer that follows those in the pool.
    Query,
    /// `MapRegion` for the buffer that follows those in the pool, which is
    /// `length` bytes long.
    Mapping { length: u32 },
    /// `Enqueue` for the buffer `index`, while starting.
    Enqueue { index: u32 },
    /// `StreamOn`.
    StreamOn,
    /// `UnmapRegion` for the buffer `index`, after `cause` made a start
    /// fail.
    Unwind { index: u32, cause: IoError },
    /// `StreamOff`, while stopping.
    StreamOff,
    /// `UnmapRegion` for the buffer `index`, while stopping; `failure` is
    /// the first failure since the stop began.
    Release { index: u32, failure: Option<IoError> },
    /// `Close`, at the end of a teardown.
    Close,
}

/// How an operation of a session goes on.
pub type Progress = Step<Result<(), Error>>;

/// Whether the device settled on the interval that was asked for: the two
/// cross products, each numerator by the other denominator, are equal and
/// neither is zero. The products are those of the integers, however large.
pub open spec fn same_interval(asked: (u32, u32), got: (u32, u32)) -> bool {
    &&& got.0 * asked.1 != 0
    &&& got.1 * asked.0 != 0
    &&& got.0 * asked.1 == got.1 * asked.0
}

/// Two intervals are the same in that sense exactly where none of the four
/// numbers is zero and both are the same rational number.
pub proof fn lemma_same_interval(asked: (u32, u32), got: (u32, u32))
    ensures
        same_interval(asked, got) <==> asked.0 != 0 && asked.1 != 0 && got.0 != 0 && got.1 != 0
            && asked.0 * got.1 == asked.1 * got.0,
{
    let (a0, a1, g0, g1) = (asked.0 as int, asked.1 as int, got.0 as int, got.1 as int);
    assert((g0 * a1 != 0 <==> g0 != 0 && a1 != 0) && (g1 * a0 != 0 <==> g1 != 0 && a0 != 0) && g0
        * a1 == a1 * g0 && g1 * a0 == a0 * g1) by (nonlinear_arith);
}

/// What a failure, if there was one, makes of an operation's result.
pub open spec fn outcome(failure: Option<IoError>) -> Result<(), Error> {
    match failure {
        Some(e) => Err(Error::Io(e)),
        None => Ok(()),
    }
}

/// The first of two failures.
pub open spec fn first_failure(earlier: Option<IoError>, reply: Result<Reply, IoError>) -> Option<
    IoError,
> {
    match (earlier, reply) {
        (Some(e), _) => Some(e),
        (None, Err(e)) => Some(e),
        (None, Ok(_)) => None,
    }
}

/// What a session holds, as mathematics.
pub struct CameraView {
    /// The device handle.
    pub fd: i32,
    pub state: State,
    pub phase: Phase,
    /// What the latest start was asked for.
    pub plan: Plan,
    /// Resolution of the frames, once streaming.
    pub resolution: (u32, u32),
    /// FourCC of the frames, once streaming.
    pub format: Seq<u8>,
    /// The buffer pool: the regions mapped from the device, by index.
    pub buffers: Seq<Region>,
    /// Whether a teardown is under way.
    pub closing: bool,
    /// Whether the device handle has been closed.
    pub closed: bool,
}

impl CameraView {
    /// A session on the device handle `fd` that has done nothing yet.
    pub open spec fn fresh(fd: i32) -> CameraView {
        CameraView {
            fd,
            state: State::Idle,
            phase: Phase::Rest,
            plan: Plan { resolution: (0, 0), fourcc: 0, field: 0, interval: (0, 0), nbuffers: 0 },
            resolution: (0, 0),
            format: seq![0u8, 0u8, 0u8, 0u8],
            buffers: Seq::empty(),
            closing: false,
            closed: false,
        }
    }

    /// What holds of every session. The pool is empty unless the session is
    /// streaming or on the way there, and while streaming it has as many
    /// buffers as were negotiated, and the frames have the resolution and
    /// format that were negotiated.
    pub open spec fn wf(self) -> bool {
        &&& self.format.len() == 4
        &&& self.buffers.len() <= self.plan.nbuffers
        &&& self.state == State::Streaming ==> self.resolution == self.plan.resolution
            && self.format == fourcc_bytes(self.plan.fourcc)
        &&& self.closed ==> self.phase == Phase::Rest && self.state == State::Aborted
        &&& self.closing ==> self.phase is StreamOff || self.phase is Release || self.phase
            is Close
        &&& match self.phase {
            Phase::Rest => match self.state {
                State::Idle => self.buffers.len() == 0,
                State::Streaming => self.buffers.len() == self.plan.nbuffers,
                State::Aborted => self.buffers.len() == 0,
            },
            Phase::Format | Phase::Interval | Phase::Buffers => self.state == State::Idle
                && self.buffers.len() == 0,
            Phase::Query | Phase::Mapping { .. } => self.state == State::Idle && self.buffers.len()
                < self.plan.nbuffers,
            Phase::Enqueue { index } => self.state == State::Idle && self.buffers.len()
                == self.plan.nbuffers && index < self.buffers.len(),
            Phase::StreamOn => self.state == State::Idle && self.buffers.len()
                == self.plan.nbuffers,
            Phase::Unwind { index, .. } => self.state == State::Idle && index < self.buffers.len(),
            Phase::StreamOff => self.state == State::Streaming && self.buffers.len()
                == self.plan.nbuffers,
            Phase::Release { index, .. } => self.state == State::Streaming && index
                < self.buffers.len() && self.buffers.len() == self.plan.nbuffers,
            Phase::Close => self.state != State::Streaming && self.buffers.len() == 0
                && self.closing,
        }
    }

    /// Whether no operation is under way.
    pub open spec fn at_rest(self) -> bool {
        self.phase == Phase::Rest
    }

    /// Whether the session can be started, and the device's offers listed.
    pub open spec fn can_start(self) -> bool {
        self.at_rest() && self.state == State::Idle
    }

    /// Whether a frame can be captured.
    pub open spec fn can_capture(self) -> bool {
        self.at_rest() && self.state == State::Streaming
    }

    /// Whether the session can be stopped.
    pub open spec fn can_stop(self) -> bool {
        self.at_rest() && self.state == State::Streaming
    }

    /// The operation under way ends with the failure `e`, and the session is
    /// as it was before.
    pub open spec fn fail(self, e: Error) -> (CameraView, Progress) {
        (CameraView { phase: Phase::Rest, ..self }, Step::Done(Err(e)))
    }

    /// A start with `config`: a format that is not four bytes long is
    /// refused at once, any other is proposed to the device.
    pub open spec fn start(self, config: Config) -> (CameraView, Progress) {
        if config.format@.len() != 4 {
            self.fail(Error::BadFormat)
        } else {
            let plan = Plan {
                resolution: config.resolution,
                fourcc: fourcc_of(config.format@),
                field: config.field.spec_code(),
                interval: config.interval,
                nbuffers: config.nbuffers,
            };
            (
                CameraView { phase: Phase::Format, plan, ..self },
                Step::Perform(
                    Request::SetFormat {
                        width: plan.resolution.0,
                        height: plan.resolution.1,
                        fourcc: plan.fourcc,
                        field: plan.field,
                    },
                ),
            )
        }
    }

    /// The device answered the proposed format. Anything but the very
    /// resolution, pixel format and field order that were asked for is a
    /// failure, looked for in that order.
    pub open spec fn tune_format(self, reply: Result<Reply, IoError>) -> (CameraView, Progress) {
        match reply {
            Err(e) => self.fail(Error::Io(e)),
            Ok(Reply::Format { width, height, fourcc, field }) => if (width, height)
                != self.plan.resolution {
                self.fail(Error::BadResolution)
            } else if fourcc != self.plan.fourcc {
                self.fail(Error::BadFormat)
            } else if field != self.plan.field {
                self.fail(Error::BadField)
            } else {
                (
                    CameraView { phase: Phase::Interval, ..self },
                    Step::Perform(
                        Request::SetInterval {
                            numerator: self.plan.interval.0,
                            denominator: self.plan.interval.1,
                        },
                    ),
                )
            },
            Ok(_) => self.fail(Error::BadFormat),
        }
    }

    /// The device answered the proposed frame interval. Anything but the
    /// same interval is a failure, and so is a zero in what was proposed.
    pub open spec fn tune_stream(self, reply: Result<Reply, IoError>) -> (CameraView, Progress) {
        match reply {
            Err(e) => self.fail(Error::Io(e)),
            Ok(Reply::Interval { numerator, denominator }) => if same_interval(
                self.plan.interval,
                (numerator, denominator),
            ) {
                (
                    CameraView { phase: Phase::Buffers, ..self },
                    Step::Perform(Request::RequestBuffers { count: self.plan.nbuffers }),
                )
            } else {
                self.fail(Error::BadInterval)
            },
            Ok(_) => self.fail(Error::BadInterval),
        }
    }

    /// The pool is filled buffer by buffer; once it is full, the buffers are
    /// handed to the device.
    pub open spec fn fill_pool(self) -> (CameraView, Progress) {
        if self.buffers.len() < self.plan.nbuffers {
            (
                CameraView { phase: Phase::Query, ..self },
                Step::Perform(Request::QueryBuffer { index: self.buffers.len() as u32 }),
            )
        } else {
            self.enqueue_from(0)
        }
    }

    /// The buffers from `index` on are handed to the device one by one; after
    /// the last, streaming is switched on.
    pub open spec fn enqueue_from(self, index: u32) -> (CameraView, Progress) {
        if index < self.buffers.len() {
            (
                CameraView { phase: Phase::Enqueue { index }, ..self },
                Step::Perform(Request::Enqueue { index }),
            )
        } else {
            (CameraView { phase: Phase::StreamOn, ..self }, Step::Perform(Request::StreamOn))
        }
    }

    /// A start has failed with `cause`: the buffers from `index` on are
    /// unmapped one by one; after the last, the pool is empty and the start
    /// ends with that failure.
    pub open spec fn unwind_from(self, index: u32, cause: IoError) -> (CameraView, Progress) {
        if index < self.buffers.len() {
            (
                CameraView { phase: Phase::Unwind { index, cause }, ..self },
                Step::Perform(Request::UnmapRegion { region: self.buffers[index as int] }),
            )
        } else {
            (
                CameraView { phase: Phase::Rest, buffers: Seq::empty(), ..self },
                Step::Done(Err(Error::Io(cause))),
            )
        }
    }

    /// The device answered while the pool was being allocated and mapped.
    /// A failure once anything is mapped unmaps it again.
    pub open spec fn alloc_buffers(self, reply: Result<Reply, IoError>) -> (CameraView, Progress) {
        match (self.phase, reply) {
            (Phase::Buffers, Err(e)) => self.fail(Error::Io(e)),
            (Phase::Buffers, Ok(_)) => self.fill_pool(),
            (_, Err(e)) => self.unwind_from(0, e),
            (Phase::Query, Ok(Reply::Buffer { length, offset })) => (
                CameraView { phase: Phase::Mapping { length }, ..self },
                Step::Perform(Request::MapRegion { length, offset }),
            ),
            (Phase::Mapping { length }, Ok(Reply::Mapped { addr })) => (CameraView {
                buffers: self.buffers.push(Region { addr, length: length as usize }),
                ..self
            }).fill_pool(),
            (_, Ok(_)) => self.fill_pool(),
        }
    }

    /// The device answered while the buffers were handed over and streaming
    /// switched on. With the last answer the session is streaming what was
    /// negotiated.
    pub open spec fn streamon(self, reply: Result<Reply, IoError>) -> (CameraView, Progress) {
        match (self.phase, reply) {
            (_, Err(e)) => self.unwind_from(0, e),
            (Phase::Enqueue { index }, Ok(_)) => self.enqueue_from((index + 1) as u32),
            (_, Ok(_)) => (
                CameraView {
                    state: State::Streaming,
                    phase: Phase::Rest,
                    resolution: self.plan.resolution,
                    format: fourcc_bytes(self.plan.fourcc),
                    ..self
                },
                Step::Done(Ok(())),
            ),
        }
    }

    /// A stop: streaming is switched off first.
    pub open spec fn stop(self) -> (CameraView, Progress) {
        (CameraView { phase: Phase::StreamOff, ..self }, Step::Perform(Request::StreamOff))
    }

    /// The device answered the switching off. Whatever it said, the pool is
    /// released next.
    pub open spec fn streamoff(self, reply: Result<Reply, IoError>) -> (CameraView, Progress) {
        self.release_from(0, first_failure(None, reply))
    }

    /// While stopping, the buffers from `index` on are unmapped one by one;
    /// after the last, the pool is empty and the session aborted. A stop
    /// then ends with the first failure, if there was one; a teardown goes
    /// on to close the device.
    pub open spec fn release_from(self, index: u32, failure: Option<IoError>) -> (
        CameraView,
        Progress,
    ) {
        if index < self.buffers.len() {
            (
                CameraView { phase: Phase::Release { index, failure }, ..self },
                Step::Perform(Request::UnmapRegion { region: self.buffers[index as int] }),
            )
        } else if self.closing {
            (
                CameraView {
                    state: State::Aborted,
                    phase: Phase::Close,
                    buffers: Seq::empty(),
                    ..self
                },
                Step::Perform(Request::Close),
            )
        } else {
            (
                CameraView {
                    state: State::Aborted,
                    phase: Phase::Rest,
                    buffers: Seq::empty(),
                    ..self
                },
                Step::Done(outcome(failure)),
            )
        }
    }

    /// The device answered an unmapping. Every buffer is unmapped in turn,
    /// whatever the answers; while stopping the first failure is kept, after
    /// a failed start they are all passed over.
    pub open spec fn free_buffers(self, reply: Result<Reply, IoError>) -> (CameraView, Progress) {
        match self.phase {
            Phase::Unwind { index, cause } => self.unwind_from((index + 1) as u32, cause),
            Phase::Release { index, failure } => self.release_from(
                (index + 1) as u32,
                first_failure(failure, reply),
            ),
            _ => (self, Step::Done(Ok(()))),
        }
    }

    /// A teardown: a streaming session is stopped first, with its failures
    /// passed over; then the device is closed, unless it was before.
    pub open spec fn teardown(self) -> (CameraView, Progress) {
        if self.closed {
            (self, Step::Done(Ok(())))
        } else if self.state == State::Streaming {
            (
                CameraView { phase: Phase::StreamOff, closing: true, ..self },
                Step::Perform(Request::StreamOff),
            )
        } else {
            (
                CameraView { phase: Phase::Close, closing: true, ..self },
                Step::Perform(Request::Close),
            )
        }
    }

    /// The device answered the closing. Whatever it said, the session is
    /// over.
    pub open spec fn close(self) -> (CameraView, Progress) {
        (
            CameraView {
                state: State::Aborted,
                phase: Phase::Rest,
                closing: false,
                closed: true,
                ..self
            },
            Step::Done(Ok(())),
        )
    }

    /// Whether `reply` can be the answer to the pending request: a failure,
    /// or the kind of answer that the request has.
    pub open spec fn expects(self, reply: Result<Reply, IoError>) -> bool {
        match self.phase {
            Phase::Rest => false,
            Phase::Format => reply is Err || reply matches Ok(Reply::Format { .. }),
            Phase::Interval => reply is Err || reply matches Ok(Reply::Interval { .. }),
            Phase::Query => reply is Err || reply matches Ok(Reply::Buffer { .. }),
            Phase::Mapping { .. } => reply is Err || reply matches Ok(Reply::Mapped { .. }),
            _ => reply is Err || reply matches Ok(Reply::Done),
        }
    }

    /// The session after the answer `reply` to its pending request, and how
    /// the operation under way goes on. This is of use for an answer that
    /// the session expects, and for no other.
    pub open spec fn answer(self, reply: Result<Reply, IoError>) -> (CameraView, Progress) {
        match self.phase {
            Phase::Rest => (self, Step::Done(Ok(()))),
            Phase::Format => self.tune_format(reply),
            Phase::Interval => self.tune_stream(reply),
            Phase::Buffers | Phase::Query | Phase::Mapping { .. } => self.alloc_buffers(reply),
            Phase::Enqueue { .. } | Phase::StreamOn => self.streamon(reply),
            Phase::Unwind { .. } | Phase::Release { .. } => self.free_buffers(reply),
            Phase::StreamOff => self.streamoff(reply),
            Phase::Close => self.close(),
        }
    }

    /// The request that a capture begins with.
    pub open spec fn dequeue(self) -> Request {
        Request::Dequeue
    }

    /// The frame that the device delivers in the buffer `index`, of which it
    /// has filled `bytesused` bytes.
    pub open spec fn frame(self, index: u32, bytesused: u32) -> FrameView {
        FrameView {
            region: self.buffers[index as int],
            used: bytesused as usize,
            resolution: self.resolution,
            format: self.format,
            fd: self.fd,
            index,
        }
    }

    /// Whether `reply` can be the device's answer to a dequeue: a failure,
    /// or a buffer of the pool with no more bytes used than it has.
    pub open spec fn delivers(self, reply: Result<Reply, IoError>) -> bool {
        match reply {
            Err(_) => true,
            Ok(Reply::Dequeued { index, bytesused }) => index < self.buffers.len() && bytesused
                <= self.buffers[index as int].length,
            Ok(_) => false,
        }
    }
}

} // verus!
