use crate::catalog::{FormatView, ModeView};
use crate::device::{Reply, Request, Step, FRMIVAL_TYPE_DISCRETE, FRMSIZE_TYPE_DISCRETE};
use crate::error::{IoError, EINVAL};
use crate::scan::{Level, ScanStep, ScanView};
use crate::text::c_string;
use vstd::prelude::*;
use vstd::utf8::valid_utf8;

verus! {

/// A frame interval as a device lists it.
pub struct IntervalOffer {
    pub kind: u32,
    pub numerator: u32,
    pub denominator: u32,
}

/// A frame size as a device lists it, with the intervals it lists for it.
pub struct SizeOffer {
    pub kind: u32,
    pub width: u32,
    pub height: u32,
    pub intervals: Seq<IntervalOffer>,
}

/// A pixel format as a device lists it, with the frame sizes it lists for
/// it.
pub struct FormatOffer {
    pub fourcc: u32,
    pub description: Vec<u8>,
    pub flags: u32,
    pub sizes: Seq<SizeOffer>,
}

/// What a device says to an index past the end of a list.
pub open spec fn past_the_end() -> Result<Reply, IoError> {
    Err(IoError { code: EINVAL })
}

/// What a device answers, request by request, while the intervals `offers`
/// of one frame size are read: each entry, then the end of the list.
pub open spec fn interval_answers(offers: Seq<IntervalOffer>) -> Seq<Result<Reply, IoError>>
    decreases offers.len(),
{
    if offers.len() == 0 {
        seq![past_the_end()]
    } else {
        seq![
            Ok(
                Reply::FrameInterval {
                    kind: offers[0].kind,
                    numerator: offers[0].numerator,
                    denominator: offers[0].denominator,
                },
            ),
        ] + interval_answers(offers.drop_first())
    }
}

/// What a device answers while the intervals of the frame size `offer` are
/// read, which happens for a discrete size only.
pub open spec fn intervals_read(offer: SizeOffer) -> Seq<Result<Reply, IoError>> {
    if offer.kind == FRMSIZE_TYPE_DISCRETE {
        interval_answers(offer.intervals)
    } else {
        Seq::empty()
    }
}

/// What a device answers while the frame sizes `offers` of one format are
/// read: each entry, followed by its intervals, then the end of the list.
pub open spec fn size_answers(offers: Seq<SizeOffer>) -> Seq<Result<Reply, IoError>>
    decreases offers.len(),
{
    if offers.len() == 0 {
        seq![past_the_end()]
    } else {
        seq![
            Ok(
                Reply::FrameSize {
                    kind: offers[0].kind,
                    width: offers[0].width,
                    height: offers[0].height,
                },
            ),
        ] + intervals_read(offers[0]) + size_answers(offers.drop_first())
    }
}

/// What a device answers while the formats `offers` are read: each entry,
/// followed by its frame sizes, then the end of the list.
pub open spec fn format_answers(offers: Seq<FormatOffer>) -> Seq<Result<Reply, IoError>>
    decreases offers.len(),
{
    if offers.len() == 0 {
        seq![past_the_end()]
    } else {
        seq![
            Ok(
                Reply::FormatDesc {
                    fourcc: offers[0].fourcc,
                    description: offers[0].description,
                    flags: offers[0].flags,
                },
            ),
        ] + size_answers(offers[0].sizes) + format_answers(offers.drop_first())
    }
}

/// The discrete intervals among `offers`, in order.
pub open spec fn intervals_of(offers: Seq<IntervalOffer>) -> Seq<(u32, u32)>
    decreases offers.len(),
{
    if offers.len() == 0 {
        Seq::empty()
    } else if offers[0].kind == FRMIVAL_TYPE_DISCRETE {
        seq![(offers[0].numerator, offers[0].denominator)] + intervals_of(offers.drop_first())
    } else {
        intervals_of(offers.drop_first())
    }
}

/// The discrete frame sizes among `offers`, in order, each with its
/// discrete intervals.
pub open spec fn modes_of(offers: Seq<SizeOffer>) -> Seq<ModeView>
    decreases offers.len(),
{
    if offers.len() == 0 {
        Seq::empty()
    } else if offers[0].kind == FRMSIZE_TYPE_DISCRETE {
        seq![
            ModeView {
                resolution: (offers[0].width, offers[0].height),
                intervals: intervals_of(offers[0].intervals),
            },
        ] + modes_of(offers.drop_first())
    } else {
        modes_of(offers.drop_first())
    }
}

/// The catalog that the formats `offers` make.
pub open spec fn catalog_of(offers: Seq<FormatOffer>) -> Seq<FormatView>
    decreases offers.len(),
{
    if offers.len() == 0 {
        Seq::empty()
    } else {
        seq![
            FormatView {
                modes: modes_of(offers[0].sizes),
                ..FormatView::from_desc(offers[0].fourcc, offers[0].description@, offers[0].flags)
            },
        ] + catalog_of(offers.drop_first())
    }
}

/// Whether every list of `offers` is short enough for an index past its
/// end to be asked for.
pub open spec fn sizes_in_reach(offers: Seq<SizeOffer>) -> bool {
    &&& offers.len() <= u32::MAX
    &&& forall|i: int| 0 <= i < offers.len() ==> (#[trigger] offers[i]).intervals.len() <= u32::MAX
}

/// Whether every list of `offers` is short enough for an index past its
/// end to be asked for, and every description is text.
pub open spec fn formats_in_reach(offers: Seq<FormatOffer>) -> bool {
    &&& offers.len() <= u32::MAX
    &&& forall|i: int|
        0 <= i < offers.len() ==> sizes_in_reach((#[trigger] offers[i]).sizes) && valid_utf8(
            c_string(offers[i].description@),
        )
}

/// The enumeration and the step that are reached from `(s, step)` when the
/// device's answers `replies` are handed over in order. Answers that come
/// after the enumeration has ended are passed over.
pub open spec fn run_scan(s: ScanView, step: ScanStep, replies: Seq<Result<Reply, IoError>>) -> (
    ScanView,
    ScanStep,
)
    decreases replies.len(),
{
    if replies.len() == 0 || step is Done {
        (s, step)
    } else {
        let (next, then) = s.answer(replies[0]);
        run_scan(next, then, replies.drop_first())
    }
}

/// Whether each of `replies`, handed over in order from `s` on, can be the
/// answer to the request pending at that point, as long as one is pending.
pub open spec fn scan_expects_all(s: ScanView, replies: Seq<Result<Reply, IoError>>) -> bool
    decreases replies.len(),
{
    replies.len() == 0 || s.level == Level::Finished || (s.expects(replies[0])
        && scan_expects_all(s.answer(replies[0]).0, replies.drop_first()))
}

/// Whether two enumerations differ at most in the frame size that was read
/// last.
spec fn alike(a: ScanView, b: ScanView) -> bool {
    a == (ScanView { mode: a.mode, interval_index: a.interval_index, ..b })
}

/// Answers in two parts are handed over part by part.
proof fn lemma_run_in_parts(
    s: ScanView,
    step: ScanStep,
    first: Seq<Result<Reply, IoError>>,
    second: Seq<Result<Reply, IoError>>,
)
    ensures
        run_scan(s, step, first + second) == run_scan(
            run_scan(s, step, first).0,
            run_scan(s, step, first).1,
            second,
        ),
        scan_expects_all(s, first) && scan_expects_all(run_scan(s, step, first).0, second)
            && (step is Done <==> s.level == Level::Finished) ==> scan_expects_all(
            s,
            first + second,
        ),
    decreases first.len(),
{
    if first.len() == 0 {
        assert(first + second == second);
    } else {
        let all = first + second;
        assert(all[0] == first[0]);
        assert(all.drop_first() == first.drop_first() + second);
        if step is Done {
            assert(run_scan(s, step, second) == (s, step));
        } else {
            let (next, then) = s.answer(first[0]);
            lemma_run_in_parts(next, then, first.drop_first(), second);
            lemma_done_is_finished(s, first[0]);
        }
    }
}

/// An enumeration ends exactly where no list is left to read.
proof fn lemma_done_is_finished(s: ScanView, reply: Result<Reply, IoError>)
    ensures
        s.answer(reply).1 is Done <==> s.answer(reply).0.level == Level::Finished,
{
}

/// Reading the intervals of a frame size to the end adds the discrete ones
/// to the frame size, and the frame size to its format.
proof fn lemma_intervals_read(s: ScanView, request: Request, offers: Seq<IntervalOffer>)
    requires
        s.level == Level::Intervals,
        s.interval_index + offers.len() <= u32::MAX,
    ensures
        run_scan(s, Step::Perform(request), interval_answers(offers)) == (ScanView {
            mode: ModeView { intervals: s.mode.intervals + intervals_of(offers), ..s.mode },
            interval_index: (s.interval_index + offers.len()) as u32,
            ..s
        }).close_mode(),
        scan_expects_all(s, interval_answers(offers)),
    decreases offers.len(),
{
    let answers = interval_answers(offers);
    let (next, then) = s.answer(answers[0]);
    let rest = answers.drop_first();
    assert(run_scan(s, Step::Perform(request), answers) == run_scan(next, then, rest));
    if offers.len() == 0 {
        assert(rest.len() == 0);
        assert(s.mode.intervals + intervals_of(offers) == s.mode.intervals);
        assert(scan_expects_all(next, rest));
    } else {
        assert(rest == interval_answers(offers.drop_first()));
        assert(then == ScanStep::Perform(then->Perform_0));
        lemma_intervals_read(next, then->Perform_0, offers.drop_first());
        assert(next.mode.intervals + intervals_of(offers.drop_first()) == s.mode.intervals
            + intervals_of(offers));
    }
}

/// Reading the frame sizes of a format to the end adds the discrete ones to
/// the format, each with its discrete intervals, and the format to the
/// catalog.
proof fn lemma_sizes_read(s: ScanView, request: Request, offers: Seq<SizeOffer>)
    requires
        s.level == Level::Sizes,
        s.size_index + offers.len() <= u32::MAX,
        sizes_in_reach(offers),
    ensures
        ({
            let (last, end) = run_scan(s, Step::Perform(request), size_answers(offers));
            let whole = (ScanView {
                format: FormatView { modes: s.format.modes + modes_of(offers), ..s.format },
                size_index: (s.size_index + offers.len()) as u32,
                ..s
            }).close_format();
            alike(last, whole.0) && end == whole.1
        }),
        scan_expects_all(s, size_answers(offers)),
    decreases offers.len(),
{
    let answers = size_answers(offers);
    let (next, then) = s.answer(answers[0]);
    let rest = answers.drop_first();
    assert(run_scan(s, Step::Perform(request), answers) == run_scan(next, then, rest));
    if offers.len() == 0 {
        assert(rest.len() == 0);
        assert(s.format.modes + modes_of(offers) == s.format.modes);
        assert(scan_expects_all(next, rest));
    } else {
        let head = offers[0];
        let tail = offers.drop_first();
        assert(sizes_in_reach(tail)) by {
            assert forall|i: int| 0 <= i < tail.len() implies (#[trigger] tail[i]).intervals.len()
                <= u32::MAX by {
                assert(tail[i] == offers[i + 1]);
            }
        }
        assert(rest == intervals_read(head) + size_answers(tail));
        assert(then == ScanStep::Perform(then->Perform_0));
        lemma_run_in_parts(next, then, intervals_read(head), size_answers(tail));
        let (mid, go) = run_scan(next, then, intervals_read(head));
        if head.kind == FRMSIZE_TYPE_DISCRETE {
            lemma_intervals_read(next, then->Perform_0, head.intervals);
            assert(Seq::<(u32, u32)>::empty() + intervals_of(head.intervals) == intervals_of(
                head.intervals,
            ));
        } else {
            assert(scan_expects_all(next, intervals_read(head)));
        }
        assert(go == ScanStep::Perform(go->Perform_0));
        lemma_sizes_read(mid, go->Perform_0, tail);
        assert(mid.format.modes + modes_of(tail) == s.format.modes + modes_of(offers));
    }
}

/// Reading the formats to the end gives the catalog read so far, followed
/// by the catalog that the remaining offers make.
proof fn lemma_formats_read(s: ScanView, request: Request, offers: Seq<FormatOffer>)
    requires
        s.level == Level::Formats,
        s.format_index + offers.len() <= u32::MAX,
        formats_in_reach(offers),
    ensures
        run_scan(s, Step::Perform(request), format_answers(offers)).1 == ScanStep::Done(Ok(s.found + catalog_of(offers))),
        run_scan(s, Step::Perform(request), format_answers(offers)).0.level == Level::Finished,
        scan_expects_all(s, format_answers(offers)),
    decreases offers.len(),
{
    let answers = format_answers(offers);
    let (next, then) = s.answer(answers[0]);
    let rest = answers.drop_first();
    assert(run_scan(s, Step::Perform(request), answers) == run_scan(next, then, rest));
    if offers.len() == 0 {
        assert(rest.len() == 0);
        assert(s.found + catalog_of(offers) == s.found);
        assert(scan_expects_all(next, rest));
    } else {
        let head = offers[0];
        let tail = offers.drop_first();
        assert(formats_in_reach(tail)) by {
            assert forall|i: int| 0 <= i < tail.len() implies sizes_in_reach(
                (#[trigger] tail[i]).sizes,
            ) && valid_utf8(c_string(tail[i].description@)) by {
                assert(tail[i] == offers[i + 1]);
            }
        }
        assert(rest == size_answers(head.sizes) + format_answers(tail));
        assert(then == ScanStep::Perform(then->Perform_0));
        lemma_run_in_parts(next, then, size_answers(head.sizes), format_answers(tail));
        let (mid, go) = run_scan(next, then, size_answers(head.sizes));
        lemma_sizes_read(next, then->Perform_0, head.sizes);
        assert(Seq::<ModeView>::empty() + modes_of(head.sizes) == modes_of(head.sizes));
        assert(go == ScanStep::Perform(go->Perform_0));
        lemma_formats_read(mid, go->Perform_0, tail);
        assert(mid.found + catalog_of(tail) == s.found + catalog_of(offers));
    }
}

/// Against a device that lists the formats `offers`, an enumeration ends
/// with the catalog that they make: every format in order, for each its
/// discrete frame sizes in order, for each of those its discrete intervals
/// in order, and nothing else. Every answer on the way is one that the
/// enumeration expects.
pub proof fn law_listing_is_the_offer(offers: Seq<FormatOffer>)
    requires
        formats_in_reach(offers),
    ensures
        run_scan(
            ScanView::begin(),
            Step::Perform(ScanView::first_request()),
            format_answers(offers),
        ).1 == ScanStep::Done(Ok(catalog_of(offers))),
        scan_expects_all(ScanView::begin(), format_answers(offers)),
{
    lemma_formats_read(ScanView::begin(), ScanView::first_request(), offers);
    assert(ScanView::begin().found + catalog_of(offers) == catalog_of(offers));
}

/// A failure that does not say that an index was invalid ends an
/// enumeration at once, at whatever point, with that failure.
pub proof fn law_listing_ends_on_failure(s: ScanView, e: IoError)
    requires
        s.level != Level::Finished,
        !e.invalid_argument(),
    ensures
        s.expects(Err(e)),
        s.answer(Err(e)).1 == ScanStep::Done(Err(e)),
        s.answer(Err(e)).0.level == Level::Finished,
{
}

} // verus!
