use crate::catalog::FormatInfo;
use crate::config::Config;
use crate::device::{Region, Reply, Request, Step};
use crate::error::{Error, IoError};
use crate::frame::Frame;
use crate::scan::{FormatScan, ScanView};
use crate::session::{same_interval, CameraView, Phase, Plan, State};
use vstd::prelude::*;

verus! {

/// A capture session on one device.
///
/// The session never touches the device itself. Every operation that needs
/// the device returns the request to carry out, and goes on when `resume` is
/// handed the device's answer, until it returns `Step::Done`.
pub struct Camera {
    fd: i32,
    state: State,
    phase: Phase,
    plan: Plan,
    resolution: (u32, u32),
    format: [u8; 4],
    buffers: Vec<Region>,
    closing: bool,
    closed: bool,
}

impl View for Camera {
    type V = CameraView;

    closed spec fn view(&self) -> CameraView {
        CameraView {
            fd: self.fd,
            state: self.state,
            phase: self.phase,
            plan: self.plan,
            resolution: self.resolution,
            format: self.format@,
            buffers: self.buffers@,
            closing: self.closing,
            closed: self.closed,
        }
    }
}

/// Whether the cross products of two intervals are equal and not zero.
fn is_same_interval(asked: (u32, u32), got: (u32, u32)) -> (r: bool)
    ensures
        r == same_interval(asked, got),
{
    let (a0, a1): (u64, u64) = (asked.0 as u64, asked.1 as u64);
    let (g0, g1): (u64, u64) = (got.0 as u64, got.1 as u64);
    assert(g0 * a1 <= 0xffff_ffff * 0xffff_ffff && g1 * a0 <= 0xffff_ffff * 0xffff_ffff)
        by (nonlinear_arith)
        requires
            a0 <= 0xffff_ffff,
            a1 <= 0xffff_ffff,
            g0 <= 0xffff_ffff,
            g1 <= 0xffff_ffff,
    ;
    let left: u64 = g0 * a1;
    let right: u64 = g1 * a0;
    left != 0 && right != 0 && left == right
}

impl Camera {
    /// A session on the open device handle `fd`, idle and without buffers.
    pub fn new(fd: i32) -> (r: Camera)
        ensures
            r@ == CameraView::fresh(fd),
            r@.wf(),
    {
        let r = Camera {
            fd,
            state: State::Idle,
            phase: Phase::Rest,
            plan: Plan { resolution: (0, 0), fourcc: 0, field: 0, interval: (0, 0), nbuffers: 0 },
            resolution: (0, 0),
            format: [0u8, 0u8, 0u8, 0u8],
            buffers: Vec::new(),
            closing: false,
            closed: false,
        };
        proof {
            assert(r.format@ =~= seq![0u8, 0u8, 0u8, 0u8]);
        }
        r
    }

    /// The device handle.
    pub fn fd(&self) -> (r: i32)
        ensures
            r == self@.fd,
    {
        self.fd
    }

    /// Where the session stands.
    pub fn state(&self) -> (r: State)
        ensures
            r == self@.state,
    {
        self.state
    }

    /// The request that the session is waiting on, if any.
    pub fn phase(&self) -> (r: Phase)
        ensures
            r == self@.phase,
    {
        self.phase
    }

    /// Resolution of the frames, once streaming.
    pub fn resolution(&self) -> (r: (u32, u32))
        ensures
            r == self@.resolution,
    {
        self.resolution
    }

    /// FourCC of the frames, once streaming.
    pub fn format(&self) -> (r: [u8; 4])
        ensures
            r@ == self@.format,
    {
        self.format
    }

    /// The buffer pool.
    pub fn buffers(&self) -> (r: &[Region])
        ensures
            r@ == self@.buffers,
    {
        self.buffers.as_slice()
    }

    /// Whether the device handle has been closed.
    pub fn is_closed(&self) -> (r: bool)
        ensures
            r == self@.closed,
    {
        self.closed
    }

    /// Whether `reply` can be handed to `resume`.
    pub fn expects(&self, reply: &Result<Reply, IoError>) -> (r: bool)
        ensures
            r == self@.expects(*reply),
    {
        match self.phase {
            Phase::Rest => false,
            Phase::Format => match reply {
                Err(_) => true,
                Ok(Reply::Format { .. }) => true,
                Ok(_) => false,
            },
            Phase::Interval => match reply {
                Err(_) => true,
                Ok(Reply::Interval { .. }) => true,
                Ok(_) => false,
            },
            Phase::Query => match reply {
                Err(_) => true,
                Ok(Reply::Buffer { .. }) => true,
                Ok(_) => false,
            },
            Phase::Mapping { .. } => match reply {
                Err(_) => true,
                Ok(Reply::Mapped { .. }) => true,
                Ok(_) => false,
            },
            _ => match reply {
                Err(_) => true,
                Ok(Reply::Done) => true,
                Ok(_) => false,
            },
        }
    }

    /// Whether `reply` can be handed to `capture`.
    pub fn delivers(&self, reply: &Result<Reply, IoError>) -> (r: bool)
        ensures
            r == self@.delivers(*reply),
    {
        match reply {
            Err(_) => true,
            Ok(Reply::Dequeued { index, bytesused }) => {
                let i: usize = *index as usize;
                i < self.buffers.len() && *bytesused as usize <= self.buffers[i].length
            },
            Ok(_) => false,
        }
    }

    /// Begins to enumerate what the device offers: the enumeration, and the
    /// request to carry out first. The session itself is left as it is.
    pub fn formats(&self) -> (r: (FormatScan, Request))
        requires
            self@.can_start(),
        ensures
            r.0@ == ScanView::begin(),
            r.1 == ScanView::first_request(),
    {
        FormatScan::begin()
    }

    /// Begins to start streaming with `config`.
    ///
    /// A format that is not four bytes long ends the start at once with
    /// `BadFormat`. Otherwise the device is asked, step by step, to accept
    /// the format and the frame interval, to allocate the buffers, to have
    /// them mapped and enqueued, and to stream. The first failure ends the
    /// start; the session is then idle again and its pool empty.
    pub fn start(&mut self, config: &Config) -> (step: Step<Result<(), Error>>)
        requires
            old(self)@.wf(),
            old(self)@.can_start(),
        ensures
            final(self)@.wf(),
            (final(self)@, step) == old(self)@.start(*config),
    {
        if config.format.len() != 4 {
            return Step::Done(Err(Error::BadFormat));
        }
        let plan = Plan {
            resolution: config.resolution,
            fourcc: FormatInfo::fourcc(config.format),
            field: config.field.code(),
            interval: config.interval,
            nbuffers: config.nbuffers,
        };
        self.plan = plan;
        self.phase = Phase::Format;
        Step::Perform(
            Request::SetFormat {
                width: plan.resolution.0,
                height: plan.resolution.1,
                fourcc: plan.fourcc,
                field: plan.field,
            },
        )
    }

    /// Begins to stop streaming: streaming is switched off, then every
    /// buffer is unmapped. The stop ends with the first failure, if any, but
    /// the session is aborted and its pool empty either way.
    pub fn stop(&mut self) -> (step: Step<Result<(), Error>>)
        requires
            old(self)@.wf(),
            old(self)@.can_stop(),
        ensures
            final(self)@.wf(),
            (final(self)@, step) == old(self)@.stop(),
    {
        self.phase = Phase::StreamOff;
        Step::Perform(Request::StreamOff)
    }

    /// Begins to end the session: a streaming session is stopped first, then
    /// the device handle is closed. Failures on the way are passed over. A
    /// session that was torn down before has nothing left to do.
    pub fn teardown(&mut self) -> (step: Step<Result<(), Error>>)
        requires
            old(self)@.wf(),
            old(self)@.at_rest(),
        ensures
            final(self)@.wf(),
            (final(self)@, step) == old(self)@.teardown(),
    {
        if self.closed {
            Step::Done(Ok(()))
        } else if self.state == State::Streaming {
            self.closing = true;
            self.phase = Phase::StreamOff;
            Step::Perform(Request::StreamOff)
        } else {
            self.closing = true;
            self.phase = Phase::Close;
            Step::Perform(Request::Close)
        }
    }

    /// Takes the device's answer to the pending request and decides how the
    /// operation under way goes on: with the next request, or with its
    /// result.
    pub fn resume(&mut self, reply: Result<Reply, IoError>) -> (step: Step<Result<(), Error>>)
        requires
            old(self)@.wf(),
            old(self)@.expects(reply),
        ensures
            final(self)@.wf(),
            (final(self)@, step) == old(self)@.answer(reply),
    {
        match self.phase {
            Phase::Rest => unreached(),
            Phase::Format => self.tune_format(reply),
            Phase::Interval => self.tune_stream(reply),
            Phase::Buffers | Phase::Query | Phase::Mapping { .. } => self.alloc_buffers(reply),
            Phase::Enqueue { .. } | Phase::StreamOn => self.streamon(reply),
            Phase::Unwind { .. } | Phase::Release { .. } => self.free_buffers(reply),
            Phase::StreamOff => self.streamoff(reply),
            Phase::Close => self.close(),
        }
    }

    /// Begins a capture: the request that waits for a filled buffer and
    /// takes it from the device. Its answer goes to `capture`.
    pub fn dequeue(&self) -> (r: Request)
        requires
            self@.wf(),
            self@.can_capture(),
        ensures
            r == self@.dequeue(),
    {
        Request::Dequeue
    }

    /// Makes a frame of the device's answer to a dequeue. The frame borrows
    /// the session, which can therefore not be stopped before the frame is
    /// released.
    pub fn capture(&self, reply: Result<Reply, IoError>) -> (r: Result<Frame<'_>, IoError>)
        requires
            self@.wf(),
            self@.can_capture(),
            self@.delivers(reply),
        ensures
            reply matches Err(e) ==> r == Err::<Frame<'_>, IoError>(e),
            reply matches Ok(Reply::Dequeued { index, bytesused }) ==> r matches Ok(frame)
                && frame@ == self@.frame(index, bytesused),
    {
        match reply {
            Ok(Reply::Dequeued { index, bytesused }) => Ok(
                Frame {
                    region: &self.buffers[index as usize],
                    used: bytesused as usize,
                    resolution: self.resolution,
                    format: self.format,
                    fd: self.fd,
                    index,
                },
            ),
            Ok(_) => unreached(),
            Err(e) => Err(e),
        }
    }

    fn fail(&mut self, e: Error) -> (step: Step<Result<(), Error>>)
        ensures
            (final(self)@, step) == old(self)@.fail(e),
    {
        self.phase = Phase::Rest;
        Step::Done(Err(e))
    }

    fn tune_format(&mut self, reply: Result<Reply, IoError>) -> (step: Step<Result<(), Error>>)
        requires
            old(self)@.wf(),
            old(self)@.phase == Phase::Format,
            old(self)@.expects(reply),
        ensures
            final(self)@.wf(),
            (final(self)@, step) == old(self)@.tune_format(reply),
    {
        match reply {
            Err(e) => self.fail(Error::Io(e)),
            Ok(Reply::Format { width, height, fourcc, field }) => {
                if width != self.plan.resolution.0 || height != self.plan.resolution.1 {
                    self.fail(Error::BadResolution)
                } else if fourcc != self.plan.fourcc {
                    self.fail(Error::BadFormat)
                } else if field != self.plan.field {
                    self.fail(Error::BadField)
                } else {
                    self.phase = Phase::Interval;
                    Step::Perform(
                        Request::SetInterval {
                            numerator: self.plan.interval.0,
                            denominator: self.plan.interval.1,
                        },
                    )
                }
            },
            Ok(_) => unreached(),
        }
    }

    fn tune_stream(&mut self, reply: Result<Reply, IoError>) -> (step: Step<Result<(), Error>>)
        requires
            old(self)@.wf(),
            old(self)@.phase == Phase::Interval,
            old(self)@.expects(reply),
        ensures
            final(self)@.wf(),
            (final(self)@, step) == old(self)@.tune_stream(reply),
    {
        match reply {
            Err(e) => self.fail(Error::Io(e)),
            Ok(Reply::Interval { numerator, denominator }) => {
                if is_same_interval(self.plan.interval, (numerator, denominator)) {
                    self.phase = Phase::Buffers;
                    Step::Perform(Request::RequestBuffers { count: self.plan.nbuffers })
                } else {
                    self.fail(Error::BadInterval)
                }
            },
            Ok(_) => unreached(),
        }
    }

    fn fill_pool(&mut self) -> (step: Step<Result<(), Error>>)
        requires
            old(self)@.state == State::Idle,
            old(self)@.buffers.len() <= old(self)@.plan.nbuffers,
            !old(self)@.closing,
            !old(self)@.closed,
        ensures
            final(self)@.wf(),
            (final(self)@, step) == old(self)@.fill_pool(),
    {
        if self.buffers.len() < self.plan.nbuffers as usize {
            self.phase = Phase::Query;
            Step::Perform(Request::QueryBuffer { index: self.buffers.len() as u32 })
        } else {
            self.enqueue_from(0)
        }
    }

    fn enqueue_from(&mut self, index: u32) -> (step: Step<Result<(), Error>>)
        requires
            old(self)@.state == State::Idle,
            old(self)@.buffers.len() == old(self)@.plan.nbuffers,
            !old(self)@.closing,
            !old(self)@.closed,
        ensures
            final(self)@.wf(),
            (final(self)@, step) == old(self)@.enqueue_from(index),
    {
        if (index as usize) < self.buffers.len() {
            self.phase = Phase::Enqueue { index };
            Step::Perform(Request::Enqueue { index })
        } else {
            self.phase = Phase::StreamOn;
            Step::Perform(Request::StreamOn)
        }
    }

    fn unwind_from(&mut self, index: u32, cause: IoError) -> (step: Step<Result<(), Error>>)
        requires
            old(self)@.wf(),
            old(self)@.state == State::Idle,
            !old(self)@.closing,
            !old(self)@.closed,
        ensures
            final(self)@.wf(),
            (final(self)@, step) == old(self)@.unwind_from(index, cause),
    {
        if (index as usize) < self.buffers.len() {
            self.phase = Phase::Unwind { index, cause };
            Step::Perform(Request::UnmapRegion { region: self.buffers[index as usize] })
        } else {
            self.buffers.clear();
            self.phase = Phase::Rest;
            Step::Done(Err(Error::Io(cause)))
        }
    }

    fn alloc_buffers(&mut self, reply: Result<Reply, IoError>) -> (step: Step<Result<(), Error>>)
        requires
            old(self)@.wf(),
            old(self)@.phase is Buffers || old(self)@.phase is Query || old(self)@.phase
                is Mapping,
            old(self)@.expects(reply),
        ensures
            final(self)@.wf(),
            (final(self)@, step) == old(self)@.alloc_buffers(reply),
    {
        match (self.phase, reply) {
            (Phase::Buffers, Err(e)) => self.fail(Error::Io(e)),
            (Phase::Buffers, Ok(_)) => self.fill_pool(),
            (_, Err(e)) => self.unwind_from(0, e),
            (Phase::Query, Ok(Reply::Buffer { length, offset })) => {
                self.phase = Phase::Mapping { length };
                Step::Perform(Request::MapRegion { length, offset })
            },
            (Phase::Mapping { length }, Ok(Reply::Mapped { addr })) => {
                self.buffers.push(Region { addr, length: length as usize });
                self.fill_pool()
            },
            (_, Ok(_)) => unreached(),
        }
    }

    fn streamon(&mut self, reply: Result<Reply, IoError>) -> (step: Step<Result<(), Error>>)
        requires
            old(self)@.wf(),
            old(self)@.phase is Enqueue || old(self)@.phase is StreamOn,
            old(self)@.expects(reply),
        ensures
            final(self)@.wf(),
            (final(self)@, step) == old(self)@.streamon(reply),
    {
        match (self.phase, reply) {
            (_, Err(e)) => self.unwind_from(0, e),
            (Phase::Enqueue { index }, Ok(_)) => self.enqueue_from(index + 1),
            (_, Ok(_)) => {
                self.resolution = self.plan.resolution;
                self.format = FormatInfo::spell(self.plan.fourcc);
                self.state = State::Streaming;
                self.phase = Phase::Rest;
                Step::Done(Ok(()))
            },
        }
    }

    fn streamoff(&mut self, reply: Result<Reply, IoError>) -> (step: Step<Result<(), Error>>)
        requires
            old(self)@.wf(),
            old(self)@.phase == Phase::StreamOff,
            old(self)@.expects(reply),
        ensures
            final(self)@.wf(),
            (final(self)@, step) == old(self)@.streamoff(reply),
    {
        let failure = match reply {
            Err(e) => Some(e),
            Ok(_) => None,
        };
        self.release_from(0, failure)
    }

    fn release_from(&mut self, index: u32, failure: Option<IoError>) -> (step: Step<
        Result<(), Error>,
    >)
        requires
            old(self)@.wf(),
            old(self)@.state == State::Streaming,
            old(self)@.phase is StreamOff || old(self)@.phase is Release,
        ensures
            final(self)@.wf(),
            (final(self)@, step) == old(self)@.release_from(index, failure),
    {
        if (index as usize) < self.buffers.len() {
            self.phase = Phase::Release { index, failure };
            Step::Perform(Request::UnmapRegion { region: self.buffers[index as usize] })
        } else {
            self.buffers.clear();
            self.state = State::Aborted;
            if self.closing {
                self.phase = Phase::Close;
                Step::Perform(Request::Close)
            } else {
                self.phase = Phase::Rest;
                match failure {
                    Some(e) => Step::Done(Err(Error::Io(e))),
                    None => Step::Done(Ok(())),
                }
            }
        }
    }

    fn free_buffers(&mut self, reply: Result<Reply, IoError>) -> (step: Step<Result<(), Error>>)
        requires
            old(self)@.wf(),
            old(self)@.phase is Unwind || old(self)@.phase is Release,
            old(self)@.expects(reply),
        ensures
            final(self)@.wf(),
            (final(self)@, step) == old(self)@.free_buffers(reply),
    {
        match self.phase {
            Phase::Unwind { index, cause } => self.unwind_from(index + 1, cause),
            Phase::Release { index, failure } => {
                let failure = match (failure, reply) {
                    (Some(e), _) => Some(e),
                    (None, Err(e)) => Some(e),
                    (None, Ok(_)) => None,
                };
                self.release_from(index + 1, failure)
            },
            _ => unreached(),
        }
    }

    fn close(&mut self) -> (step: Step<Result<(), Error>>)
        requires
            old(self)@.wf(),
            old(self)@.phase == Phase::Close,
        ensures
            final(self)@.wf(),
            (final(self)@, step) == old(self)@.close(),
    {
        self.state = State::Aborted;
        self.phase = Phase::Rest;
        self.closing = false;
        self.closed = true;
        Step::Done(Ok(()))
    }
}

} // verus!
