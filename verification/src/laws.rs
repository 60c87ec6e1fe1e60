use crate::catalog::{fourcc_bytes, fourcc_of, lemma_fourcc_round_trip};
use crate::config::Config;
use crate::device::{Reply, Request, Step};
use crate::error::{Error, IoError};
use crate::session::{
    first_failure, lemma_same_interval, outcome, same_interval, CameraView, Phase, Progress, State,
};
use vstd::prelude::*;

verus! {

/// The session and the step that are reached from `(c, step)` when the
/// device's answers `replies` are handed over in order. Answers that come
/// after the operation has ended are passed over.
pub open spec fn run(c: CameraView, step: Progress, replies: Seq<Result<Reply, IoError>>) -> (
    CameraView,
    Progress,
)
    decreases replies.len(),
{
    if replies.len() == 0 || step is Done {
        (c, step)
    } else {
        let (next, then) = c.answer(replies[0]);
        run(next, then, replies.drop_first())
    }
}

/// Whether `reply` is what a device answers that does as it is asked: a
/// success of the kind that the pending request has, with the very format
/// that was proposed, and with an interval that is the same as the one
/// proposed: no zero in either, and the same rational number.
pub open spec fn obliging(c: CameraView, reply: Result<Reply, IoError>) -> bool {
    &&& reply is Ok
    &&& c.expects(reply)
    &&& c.phase == Phase::Format ==> reply == Ok::<Reply, IoError>(
        Reply::Format {
            width: c.plan.resolution.0,
            height: c.plan.resolution.1,
            fourcc: c.plan.fourcc,
            field: c.plan.field,
        },
    )
    &&& c.phase == Phase::Interval ==> (reply matches Ok(Reply::Interval { numerator, denominator })
        && same_interval(c.plan.interval, (numerator, denominator)))
}

/// Whether each of `replies`, handed over in order from `c` on, is what an
/// obliging device answers at that point.
pub open spec fn all_obliging(c: CameraView, replies: Seq<Result<Reply, IoError>>) -> bool
    decreases replies.len(),
{
    replies.len() == 0 || (obliging(c, replies[0]) && all_obliging(
        c.answer(replies[0]).0,
        replies.drop_first(),
    ))
}

/// How many answers a start still needs from an obliging device.
pub open spec fn answers_left(c: CameraView) -> int {
    let n = c.plan.nbuffers as int;
    let have = c.buffers.len() as int;
    match c.phase {
        Phase::Format => 3 * n + 4,
        Phase::Interval => 3 * n + 3,
        Phase::Buffers => 3 * n + 2,
        Phase::Query => 3 * n + 1 - 2 * have,
        Phase::Mapping { .. } => 3 * n - 2 * have,
        Phase::Enqueue { index } => n + 1 - index,
        Phase::StreamOn => 1,
        _ => 0,
    }
}

/// Whether a start is under way in `c`.
pub open spec fn starting(c: CameraView) -> bool {
    c.phase is Format || c.phase is Interval || c.phase is Buffers || c.phase is Query || c.phase
        is Mapping || c.phase is Enqueue || c.phase is StreamOn
}

/// One answer of an obliging device brings a start one answer nearer to its
/// end, and the last one ends it well.
proof fn lemma_obliging_step(c: CameraView, reply: Result<Reply, IoError>)
    requires
        c.wf(),
        starting(c),
        obliging(c, reply),
    ensures
        ({
            let (next, step) = c.answer(reply);
            &&& next.wf()
            &&& next.plan == c.plan
            &&& next.fd == c.fd
            &&& if answers_left(c) == 1 {
                &&& step == Progress::Done(Ok(()))
                &&& next.state == State::Streaming
                &&& next.phase == Phase::Rest
                &&& next.buffers.len() == c.plan.nbuffers
                &&& next.resolution == c.plan.resolution
                &&& next.format == fourcc_bytes(c.plan.fourcc)
            } else {
                &&& step is Perform
                &&& starting(next)
                &&& answers_left(next) == answers_left(c) - 1
            }
        }),
{
}

/// A start that gets every answer it still needs from an obliging device
/// ends well, with the session streaming what was planned.
proof fn lemma_obliging_run(c: CameraView, request: Request, replies: Seq<Result<Reply, IoError>>)
    requires
        c.wf(),
        starting(c),
        all_obliging(c, replies),
        replies.len() == answers_left(c),
    ensures
        ({
            let (last, step) = run(c, Step::Perform(request), replies);
            &&& step == Progress::Done(Ok(()))
            &&& last.wf()
            &&& last.state == State::Streaming
            &&& last.phase == Phase::Rest
            &&& last.buffers.len() == c.plan.nbuffers
            &&& last.resolution == c.plan.resolution
            &&& last.format == fourcc_bytes(c.plan.fourcc)
            &&& last.fd == c.fd
        }),
    decreases replies.len(),
{
    assert(answers_left(c) >= 1);
    let (next, step) = c.answer(replies[0]);
    lemma_obliging_step(c, replies[0]);
    let rest = replies.drop_first();
    if answers_left(c) == 1 {
        assert(rest.len() == 0);
        assert(run(next, step, rest) == (next, step));
    } else {
        let then = step->Perform_0;
        assert(step == Progress::Perform(then));
        lemma_obliging_run(next, then, rest);
    }
}

/// Where the device accepts the very resolution, format and field order
/// that a configuration asks for, settles on an interval that is the same
/// rational number, neither interval having a zero in it, and fails at
/// nothing else, a start with that configuration succeeds: the session is
/// then streaming what was asked for, with as many buffers as were asked
/// for.
pub proof fn law_start_succeeds(c: CameraView, config: Config, replies: Seq<Result<Reply, IoError>>)
    requires
        c.wf(),
        c.can_start(),
        config.format@.len() == 4,
        all_obliging(c.start(config).0, replies),
        replies.len() == 3 * config.nbuffers + 4,
    ensures
        ({
            let (begun, first) = c.start(config);
            let (last, step) = run(begun, first, replies);
            &&& step == Progress::Done(Ok(()))
            &&& last.wf()
            &&& last.state == State::Streaming
            &&& last.can_capture()
            &&& last.buffers.len() == config.nbuffers
            &&& last.resolution == config.resolution
            &&& last.format == config.format@
        }),
{
    let (begun, first) = c.start(config);
    lemma_obliging_run(begun, first->Perform_0, replies);
    lemma_fourcc_round_trip(config.format@, 0);
}

/// A configuration whose format is not four bytes long is refused with
/// `BadFormat` before the device is asked anything, and the session stays
/// as it was.
pub proof fn law_start_refuses_malformed_format(c: CameraView, config: Config)
    requires
        c.wf(),
        c.can_start(),
        config.format@.len() != 4,
    ensures
        c.start(config) == (c, Progress::Done(Err(Error::BadFormat))),
{
}

/// Where the device answers the proposed format with another resolution,
/// pixel format or field order than the configuration asks for, the start
/// fails with `BadResolution`, `BadFormat` or `BadField`, whichever
/// difference comes first in that order. The session is then idle, with no
/// buffer in its pool, and can be started again.
pub proof fn law_start_rejects_adjusted_format(
    c: CameraView,
    config: Config,
    width: u32,
    height: u32,
    fourcc: u32,
    field: u32,
)
    requires
        c.wf(),
        c.can_start(),
        config.format@.len() == 4,
        (width, height) != config.resolution || fourcc != fourcc_of(config.format@) || field
            != config.field.spec_code(),
    ensures
        ({
            let (begun, first) = c.start(config);
            let (last, step) = begun.answer(Ok(Reply::Format { width, height, fourcc, field }));
            &&& first == Progress::Perform(
                Request::SetFormat {
                    width: config.resolution.0,
                    height: config.resolution.1,
                    fourcc: fourcc_of(config.format@),
                    field: config.field.spec_code(),
                },
            )
            &&& step == Progress::Done(
                Err(
                    if (width, height) != config.resolution {
                        Error::BadResolution
                    } else if fourcc != fourcc_of(config.format@) {
                        Error::BadFormat
                    } else {
                        Error::BadField
                    },
                ),
            )
            &&& last.wf()
            &&& last.state == State::Idle
            &&& last.buffers.len() == 0
            &&& last.can_start()
        }),
{
}

/// Where the device accepts the format and then answers the proposed frame
/// interval `(n, d)` with `(numerator, denominator)`, the start fails with
/// `BadInterval` if any of the four numbers is zero or `n * denominator`
/// is not `d * numerator`. The session is then idle, with no buffer in its
/// pool, and can be started again.
pub proof fn law_start_rejects_adjusted_interval(
    c: CameraView,
    config: Config,
    numerator: u32,
    denominator: u32,
)
    requires
        c.wf(),
        c.can_start(),
        config.format@.len() == 4,
        config.interval.0 == 0 || config.interval.1 == 0 || numerator == 0 || denominator == 0
            || config.interval.0 * denominator != config.interval.1 * numerator,
    ensures
        ({
            let (begun, first) = c.start(config);
            let (tuned, second) = begun.answer(
                Ok(
                    Reply::Format {
                        width: config.resolution.0,
                        height: config.resolution.1,
                        fourcc: fourcc_of(config.format@),
                        field: config.field.spec_code(),
                    },
                ),
            );
            let (last, step) = tuned.answer(Ok(Reply::Interval { numerator, denominator }));
            &&& second == Progress::Perform(
                Request::SetInterval {
                    numerator: config.interval.0,
                    denominator: config.interval.1,
                },
            )
            &&& step == Progress::Done(Err(Error::BadInterval))
            &&& last.wf()
            &&& last.state == State::Idle
            &&& last.buffers.len() == 0
            &&& last.can_start()
        }),
{
    lemma_same_interval(config.interval, (numerator, denominator));
}

/// Where the device accepts the format and then answers the proposed frame
/// interval, the start goes on to have the buffers allocated exactly if
/// none of the four numbers is zero and both intervals are the same
/// rational number.
pub proof fn law_start_accepts_equal_interval(
    c: CameraView,
    config: Config,
    numerator: u32,
    denominator: u32,
)
    requires
        c.wf(),
        c.can_start(),
        config.format@.len() == 4,
    ensures
        ({
            let (begun, first) = c.start(config);
            let (tuned, second) = begun.answer(
                Ok(
                    Reply::Format {
                        width: config.resolution.0,
                        height: config.resolution.1,
                        fourcc: fourcc_of(config.format@),
                        field: config.field.spec_code(),
                    },
                ),
            );
            let step = tuned.answer(Ok(Reply::Interval { numerator, denominator })).1;
            let accepted = config.interval.0 != 0 && config.interval.1 != 0 && numerator != 0
                && denominator != 0 && config.interval.0 * denominator == config.interval.1
                * numerator;
            step == if accepted {
                Progress::Perform(Request::RequestBuffers { count: config.nbuffers })
            } else {
                Progress::Done(Err(Error::BadInterval))
            }
        }),
{
    lemma_same_interval(config.interval, (numerator, denominator));
}

/// Whether each of `replies`, handed over in order from `c` on, can be the
/// answer to the request pending at that point, as long as one is pending.
pub open spec fn all_expected(c: CameraView, replies: Seq<Result<Reply, IoError>>) -> bool
    decreases replies.len(),
{
    replies.len() == 0 || c.at_rest() || (c.expects(replies[0]) && all_expected(
        c.answer(replies[0]).0,
        replies.drop_first(),
    ))
}

/// Whether a start is under way in `c`, or the unmapping after a start that
/// failed.
pub open spec fn starting_or_unwinding(c: CameraView) -> bool {
    starting(c) || c.phase is Unwind
}

/// Whether a stop or a teardown is under way in `c`.
pub open spec fn stopping(c: CameraView) -> bool {
    c.phase is StreamOff || c.phase is Release || c.phase is Close
}

/// Every answer keeps a session well formed and its operation on course:
/// a start ends idle or streaming, a stop or teardown aborted.
proof fn lemma_answer_keeps(c: CameraView, reply: Result<Reply, IoError>)
    requires
        c.wf(),
        c.expects(reply),
    ensures
        ({
            let (next, step) = c.answer(reply);
            &&& next.wf()
            &&& next.fd == c.fd
            &&& step is Perform <==> !next.at_rest()
            &&& starting_or_unwinding(c) ==> {
                &&& step is Perform ==> starting_or_unwinding(next)
                &&& step matches Step::Done(Ok(_)) ==> next.state == State::Streaming
                    && next.buffers.len() == c.plan.nbuffers
                &&& step matches Step::Done(Err(_)) ==> next.state == State::Idle
                    && next.buffers.len() == 0
            }
            &&& stopping(c) ==> {
                &&& step is Perform ==> stopping(next)
                &&& step is Done ==> next.state == State::Aborted && next.buffers.len() == 0
            }
        }),
{
}

/// A start ends in one of two ways, whatever the device answers. Where it
/// succeeds, the session is streaming with as many buffers as were asked
/// for. Where it fails, at whichever request, the session is idle with no
/// buffer in its pool, and can be started again.
pub proof fn law_start_ends_streaming_or_idle(
    c: CameraView,
    config: Config,
    replies: Seq<Result<Reply, IoError>>,
)
    requires
        c.wf(),
        c.can_start(),
        all_expected(c.start(config).0, replies),
    ensures
        ({
            let (begun, first) = c.start(config);
            let (last, step) = run(begun, first, replies);
            &&& last.wf()
            &&& step matches Step::Done(Ok(_)) ==> last.can_capture() && last.buffers.len()
                == config.nbuffers
            &&& step matches Step::Done(Err(_)) ==> last.can_start() && last.buffers.len() == 0
        }),
{
    let (begun, first) = c.start(config);
    if first is Perform {
        lemma_run_of_start(begun, first, replies);
    }
}

proof fn lemma_run_of_start(c: CameraView, step: Progress, replies: Seq<Result<Reply, IoError>>)
    requires
        c.wf(),
        starting_or_unwinding(c),
        step is Perform,
        all_expected(c, replies),
    ensures
        ({
            let (last, end) = run(c, step, replies);
            &&& last.wf()
            &&& end matches Step::Done(Ok(_)) ==> last.can_capture() && last.buffers.len()
                == c.plan.nbuffers
            &&& end matches Step::Done(Err(_)) ==> last.can_start() && last.buffers.len() == 0
        }),
    decreases replies.len(),
{
    if replies.len() > 0 {
        lemma_answer_keeps(c, replies[0]);
        let (next, then) = c.answer(replies[0]);
        if then is Perform {
            lemma_answer_keeps_plan(c, replies[0]);
            lemma_run_of_start(next, then, replies.drop_first());
        }
    }
}

/// What a start was asked for stays as it is until the start has ended.
proof fn lemma_answer_keeps_plan(c: CameraView, reply: Result<Reply, IoError>)
    requires
        c.wf(),
        c.expects(reply),
    ensures
        c.answer(reply).0.plan == c.plan,
{
}

/// The first failure among `replies`, if there is one.
pub open spec fn first_failure_in(replies: Seq<Result<Reply, IoError>>) -> Option<IoError>
    decreases replies.len(),
{
    if replies.len() == 0 {
        None
    } else {
        match replies[0] {
            Err(e) => Some(e),
            Ok(_) => first_failure_in(replies.drop_first()),
        }
    }
}

proof fn lemma_run_of_stop(
    c: CameraView,
    request: Request,
    replies: Seq<Result<Reply, IoError>>,
    index: u32,
    failure: Option<IoError>,
)
    requires
        c.wf(),
        !c.closing,
        c.phase == (Phase::Release { index, failure }),
        all_expected(c, replies),
        replies.len() == c.buffers.len() - index,
    ensures
        ({
            let (last, end) = run(c, Step::Perform(request), replies);
            &&& last.wf()
            &&& last.state == State::Aborted
            &&& last.at_rest()
            &&& last.buffers.len() == 0
            &&& end == Progress::Done(
                outcome(
                    match failure {
                        Some(e) => Some(e),
                        None => first_failure_in(replies),
                    },
                ),
            )
        }),
    decreases replies.len(),
{
    let (next, then) = c.answer(replies[0]);
    let rest = replies.drop_first();
    let carried = first_failure(failure, replies[0]);
    assert(run(c, Step::Perform(request), replies) == run(next, then, rest));
    assert(first_failure_in(replies) == match replies[0] {
        Err(e) => Some(e),
        Ok(_) => first_failure_in(rest),
    });
    if index + 1 < c.buffers.len() {
        assert(then == Progress::Perform(then->Perform_0));
        lemma_run_of_stop(next, then->Perform_0, rest, (index + 1) as u32, carried);
    } else {
        assert(rest.len() == 0);
        assert(first_failure_in(rest) == None::<IoError>);
        assert(run(next, then, rest) == (next, then));
    }
}

/// A stop ends with the session aborted and its pool empty, whatever the
/// device answers: streaming is switched off and every buffer unmapped in
/// turn, and the stop succeeds exactly where none of that failed; else it
/// ends with the first failure.
pub proof fn law_stop_aborts(c: CameraView, replies: Seq<Result<Reply, IoError>>)
    requires
        c.wf(),
        c.can_stop(),
        all_expected(c.stop().0, replies),
        replies.len() == c.buffers.len() + 1,
    ensures
        ({
            let (begun, first) = c.stop();
            let (last, step) = run(begun, first, replies);
            &&& last.wf()
            &&& last.state == State::Aborted
            &&& last.at_rest()
            &&& last.buffers.len() == 0
            &&& step == Progress::Done(
                outcome(first_failure_in(replies)),
            )
        }),
{
    let (begun, first) = c.stop();
    let (next, then) = begun.answer(replies[0]);
    let rest = replies.drop_first();
    let carried = first_failure(None, replies[0]);
    assert(run(begun, first, replies) == run(next, then, rest));
    assert(first_failure_in(replies) == match replies[0] {
        Err(e) => Some(e),
        Ok(_) => first_failure_in(rest),
    });
    if c.buffers.len() > 0 {
        assert(then == Progress::Perform(then->Perform_0));
        lemma_run_of_stop(next, then->Perform_0, rest, 0, carried);
    } else {
        assert(rest.len() == 0);
        assert(first_failure_in(rest) == None::<IoError>);
        assert(run(next, then, rest) == (next, then));
    }
}

/// Once a stop has ended, whether well or with a failure, the session is
/// aborted for good. It meets the `requires` of none of `start`, `formats`,
/// `dequeue`, `capture` and `stop`, so that none of them can be called and
/// nothing more is asked of the device on their account; it waits for no
/// answer; and its pool is empty.
pub proof fn law_stopped_is_final(
    c: CameraView,
    replies: Seq<Result<Reply, IoError>>,
    reply: Result<Reply, IoError>,
)
    requires
        c.wf(),
        c.can_stop(),
        all_expected(c.stop().0, replies),
        replies.len() == c.buffers.len() + 1,
    ensures
        ({
            let last = run(c.stop().0, c.stop().1, replies).0;
            &&& last.wf()
            &&& last.state == State::Aborted
            &&& last.buffers.len() == 0
            &&& !last.can_start()
            &&& !last.can_capture()
            &&& !last.can_stop()
            &&& !last.expects(reply)
        }),
{
    law_stop_aborts(c, replies);
}

/// No run of answers leads an aborted session anywhere else: whatever is
/// still under way in it, a teardown at most, leaves it aborted at every
/// step.
pub proof fn law_aborted_for_good(
    c: CameraView,
    step: Progress,
    replies: Seq<Result<Reply, IoError>>,
)
    requires
        c.wf(),
        c.state == State::Aborted,
        step is Perform <==> !c.at_rest(),
        all_expected(c, replies),
    ensures
        run(c, step, replies).0.wf(),
        run(c, step, replies).0.state == State::Aborted,
        run(c, step, replies).0.buffers.len() == 0,
    decreases replies.len(),
{
    if replies.len() > 0 && step is Perform {
        let (next, then) = c.answer(replies[0]);
        law_aborted_is_final(c, replies[0]);
        law_aborted_for_good(next, then, replies.drop_first());
    }
}

/// An aborted session stays aborted: it meets the `requires` of none of
/// `start`, `formats`, `dequeue`, `capture` and `stop`, and neither a
/// teardown nor any answer of the device leads it anywhere else.
pub proof fn law_aborted_is_final(c: CameraView, reply: Result<Reply, IoError>)
    requires
        c.wf(),
        c.state == State::Aborted,
    ensures
        !c.can_start(),
        !c.can_capture(),
        !c.can_stop(),
        c.teardown().0.state == State::Aborted,
        c.teardown().0.wf(),
        c.expects(reply) ==> c.answer(reply).0.state == State::Aborted && c.answer(reply).0.wf(),
{
}

/// A frame names the buffer it was captured in: releasing it asks the
/// device to take back that very buffer. A capture leaves the session as
/// it is, so that the device can deliver the buffer again.
pub proof fn law_release_returns_buffer(c: CameraView, index: u32, bytesused: u32)
    requires
        c.wf(),
        c.can_capture(),
        c.delivers(Ok(Reply::Dequeued { index, bytesused })),
    ensures
        c.frame(index, bytesused).index == index,
        c.frame(index, bytesused).fd == c.fd,
        c.frame(index, bytesused).region == c.buffers[index as int],
        c.frame(index, bytesused).release() == (Request::Enqueue { index }),
{
}

/// A frame is a window into its buffer, as long as the device says it has
/// filled, and has the resolution and the format that the session
/// negotiated.
pub proof fn law_frame_is_as_negotiated(c: CameraView, index: u32, bytesused: u32)
    requires
        c.wf(),
        c.can_capture(),
        c.delivers(Ok(Reply::Dequeued { index, bytesused })),
    ensures
        c.frame(index, bytesused).used == bytesused,
        c.frame(index, bytesused).used <= c.frame(index, bytesused).region.length,
        c.frame(index, bytesused).resolution == c.plan.resolution,
        c.frame(index, bytesused).format == fourcc_bytes(c.plan.fourcc),
{
}

/// The device handle is closed once: a session that has been torn down
/// waits for no answer, can begin nothing, and a further teardown asks
/// nothing of the device.
pub proof fn law_closed_once(c: CameraView, reply: Result<Reply, IoError>)
    requires
        c.wf(),
        c.closed,
    ensures
        !c.expects(reply),
        !c.can_start(),
        !c.can_capture(),
        !c.can_stop(),
        c.teardown() == (c, Progress::Done(Ok(()))),
{
}

/// Whether a start has come to where something may be mapped.
pub open spec fn pool_in_the_making(c: CameraView) -> bool {
    c.phase is Query || c.phase is Mapping || c.phase is Enqueue || c.phase is StreamOn
}

proof fn lemma_run_of_unwind(
    c: CameraView,
    request: Request,
    replies: Seq<Result<Reply, IoError>>,
    index: u32,
    cause: IoError,
)
    requires
        c.wf(),
        c.phase == (Phase::Unwind { index, cause }),
        all_expected(c, replies),
        index + replies.len() <= c.buffers.len(),
    ensures
        ({
            let (last, end) = run(c, Step::Perform(request), replies);
            let reached = index + replies.len();
            &&& last.wf()
            &&& last.plan == c.plan
            &&& if reached > index && reached == c.buffers.len() {
                &&& end == Progress::Done(Err(Error::Io(cause)))
                &&& last.buffers.len() == 0
                &&& last.can_start()
            } else if reached > index {
                &&& end == Progress::Perform(
                    Request::UnmapRegion { region: c.buffers[reached] },
                )
                &&& last.buffers == c.buffers
            } else {
                end == Progress::Perform(request)
            }
        }),
    decreases replies.len(),
{
    if replies.len() > 0 {
        let (next, then) = c.answer(replies[0]);
        let rest = replies.drop_first();
        assert(run(c, Step::Perform(request), replies) == run(next, then, rest));
        if index + 1 < c.buffers.len() {
            assert(then == Progress::Perform(then->Perform_0));
            lemma_run_of_unwind(next, then->Perform_0, rest, (index + 1) as u32, cause);
        } else {
            assert(rest.len() == 0);
            assert(run(next, then, rest) == (next, then));
        }
    }
}

/// Where a start fails once its pool is in the making, every buffer that
/// was mapped until then is unmapped again, in the order of the pool and
/// whatever the device answers to that. Then the start ends with the
/// failure that stopped it, the pool is empty and the session can be
/// started again.
pub proof fn law_failed_start_unmaps_pool(
    c: CameraView,
    cause: IoError,
    replies: Seq<Result<Reply, IoError>>,
)
    requires
        c.wf(),
        pool_in_the_making(c),
        all_expected(c.answer(Err(cause)).0, replies),
        replies.len() <= c.buffers.len(),
    ensures
        ({
            let (failed, first) = c.answer(Err(cause));
            let (last, step) = run(failed, first, replies);
            &&& last.wf()
            &&& if replies.len() == c.buffers.len() {
                &&& step == Progress::Done(Err(Error::Io(cause)))
                &&& last.buffers.len() == 0
                &&& last.can_start()
            } else {
                &&& step == Progress::Perform(
                    Request::UnmapRegion { region: c.buffers[replies.len() as int] },
                )
                &&& last.buffers == c.buffers
            }
        }),
{
    let (failed, first) = c.answer(Err(cause));
    if c.buffers.len() > 0 {
        assert(first == Progress::Perform(first->Perform_0));
        lemma_run_of_unwind(failed, first->Perform_0, replies, 0, cause);
    } else {
        assert(run(failed, first, replies) == (failed, first));
    }
}

proof fn lemma_run_of_release(
    c: CameraView,
    request: Request,
    replies: Seq<Result<Reply, IoError>>,
    index: u32,
    failure: Option<IoError>,
)
    requires
        c.wf(),
        c.phase == (Phase::Release { index, failure }),
        all_expected(c, replies),
        0 < replies.len(),
        index + replies.len() < c.buffers.len(),
    ensures
        ({
            let (last, end) = run(c, Step::Perform(request), replies);
            &&& last.wf()
            &&& last.buffers == c.buffers
            &&& end == Progress::Perform(
                Request::UnmapRegion { region: c.buffers[index + replies.len()] },
            )
        }),
    decreases replies.len(),
{
    let (next, then) = c.answer(replies[0]);
    let rest = replies.drop_first();
    assert(run(c, Step::Perform(request), replies) == run(next, then, rest));
    assert(then == Progress::Perform(then->Perform_0));
    if rest.len() > 0 {
        lemma_run_of_release(
            next,
            then->Perform_0,
            rest,
            (index + 1) as u32,
            first_failure(failure, replies[0]),
        );
    } else {
        assert(run(next, then, rest) == (next, then));
    }
}

/// A stop, and a teardown of a streaming session, unmap every buffer in
/// the order of the pool, whatever the device answers: once streaming is
/// switched off, or has failed to be, the answer number `k` is followed by
/// the request to unmap the buffer `k - 1`, as long as there is one.
pub proof fn law_stop_unmaps_in_order(c: CameraView, replies: Seq<Result<Reply, IoError>>)
    requires
        c.wf(),
        c.can_stop(),
        all_expected(c.stop().0, replies),
        0 < replies.len() <= c.buffers.len(),
    ensures
        run(c.stop().0, c.stop().1, replies).1 == Progress::Perform(
            Request::UnmapRegion { region: c.buffers[replies.len() - 1] },
        ),
        run(c.teardown().0, c.teardown().1, replies).1 == run(c.stop().0, c.stop().1, replies).1,
{
    let rest = replies.drop_first();
    let carried = first_failure(None, replies[0]);
    let (begun, first) = c.stop();
    let (next, then) = begun.answer(replies[0]);
    assert(run(begun, first, replies) == run(next, then, rest));
    assert(then == Progress::Perform(then->Perform_0));
    let (torn, first_torn) = c.teardown();
    let (next_torn, then_torn) = torn.answer(replies[0]);
    assert(run(torn, first_torn, replies) == run(next_torn, then_torn, rest));
    assert(then_torn == then);
    if rest.len() > 0 {
        lemma_run_of_release(next, then->Perform_0, rest, 0, carried);
        lemma_expected_while_closing(next, next_torn, rest);
        lemma_run_of_release(next_torn, then->Perform_0, rest, 0, carried);
    } else {
        assert(run(next, then, rest) == (next, then));
        assert(run(next_torn, then_torn, rest) == (next_torn, then_torn));
    }
}

/// While buffers are released, a teardown expects the answers that a stop
/// expects.
proof fn lemma_expected_while_closing(
    c: CameraView,
    closing: CameraView,
    replies: Seq<Result<Reply, IoError>>,
)
    requires
        c.phase is Release,
        closing == (CameraView { closing: true, ..c }),
        all_expected(c, replies),
        c.phase->Release_index + replies.len() < c.buffers.len(),
    ensures
        all_expected(closing, replies),
    decreases replies.len(),
{
    if replies.len() > 0 {
        lemma_expected_while_closing(
            c.answer(replies[0]).0,
            closing.answer(replies[0]).0,
            replies.drop_first(),
        );
    }
}

proof fn lemma_run_of_teardown(
    c: CameraView,
    request: Request,
    replies: Seq<Result<Reply, IoError>>,
    index: u32,
    failure: Option<IoError>,
)
    requires
        c.wf(),
        c.closing,
        c.phase == (Phase::Release { index, failure }),
        all_expected(c, replies),
        replies.len() == c.buffers.len() - index + 1,
    ensures
        ({
            let (last, end) = run(c, Step::Perform(request), replies);
            &&& last.wf()
            &&& last.state == State::Aborted
            &&& last.closed
            &&& last.at_rest()
            &&& last.buffers.len() == 0
            &&& end == Progress::Done(Ok(()))
        }),
    decreases replies.len(),
{
    let (next, then) = c.answer(replies[0]);
    let rest = replies.drop_first();
    assert(run(c, Step::Perform(request), replies) == run(next, then, rest));
    assert(then == Progress::Perform(then->Perform_0));
    if index + 1 < c.buffers.len() {
        lemma_run_of_teardown(
            next,
            then->Perform_0,
            rest,
            (index + 1) as u32,
            first_failure(failure, replies[0]),
        );
    } else {
        lemma_run_of_close(next, then, rest);
    }
}

proof fn lemma_run_of_close(c: CameraView, step: Progress, replies: Seq<Result<Reply, IoError>>)
    requires
        c.wf(),
        c.phase == Phase::Close,
        step is Perform,
        all_expected(c, replies),
        replies.len() == 1,
    ensures
        ({
            let (last, end) = run(c, step, replies);
            &&& last.wf()
            &&& last.state == State::Aborted
            &&& last.closed
            &&& last.at_rest()
            &&& last.buffers.len() == 0
            &&& end == Progress::Done(Ok(()))
        }),
{
    let (next, then) = c.answer(replies[0]);
    let rest = replies.drop_first();
    assert(run(c, step, replies) == run(next, then, rest));
    assert(run(next, then, rest) == (next, then));
}

/// A teardown ends well whatever the device answers, with the device
/// closed, the pool empty and the session aborted. A streaming session is
/// stopped on the way: streaming switched off, every buffer unmapped; any
/// other is only closed.
pub proof fn law_teardown_closes(c: CameraView, replies: Seq<Result<Reply, IoError>>)
    requires
        c.wf(),
        c.at_rest(),
        !c.closed,
        all_expected(c.teardown().0, replies),
        replies.len() == if c.state == State::Streaming {
            c.buffers.len() + 2
        } else {
            1
        },
    ensures
        ({
            let (begun, first) = c.teardown();
            let (last, step) = run(begun, first, replies);
            &&& first == Progress::Perform(
                if c.state == State::Streaming {
                    Request::StreamOff
                } else {
                    Request::Close
                },
            )
            &&& step == Progress::Done(Ok(()))
            &&& last.wf()
            &&& last.state == State::Aborted
            &&& last.closed
            &&& last.at_rest()
            &&& last.buffers.len() == 0
        }),
{
    let (begun, first) = c.teardown();
    if c.state == State::Streaming {
        let (next, then) = begun.answer(replies[0]);
        let rest = replies.drop_first();
        assert(run(begun, first, replies) == run(next, then, rest));
        assert(then == Progress::Perform(then->Perform_0));
        if c.buffers.len() > 0 {
            lemma_run_of_teardown(
                next,
                then->Perform_0,
                rest,
                0,
                first_failure(None, replies[0]),
            );
        } else {
            lemma_run_of_close(next, then, rest);
        }
    } else {
        lemma_run_of_close(begun, first, replies);
    }
}

} // verus!
