use rscam::session::Phase;
use rscam::{Camera, Config, Error, Field, IoError, Region, Reply, Request, State, Step};
use std::collections::VecDeque;

/// A device that lives in memory. It does as it is asked unless told
/// otherwise, and keeps a log of what it was asked.
struct Mock {
    format_reply: Option<(u32, u32, u32, u32)>,
    interval_reply: Option<(u32, u32)>,
    fail_at: Option<(usize, i32)>,
    length: u32,
    bytesused: u32,
    log: Vec<Request>,
    queued: VecDeque<u32>,
    lent: Vec<u32>,
    mapped: Vec<Region>,
    streaming: bool,
    closed: u32,
}

impl Mock {
    fn new() -> Mock {
        Mock {
            format_reply: None,
            interval_reply: None,
            fail_at: None,
            length: 4096,
            bytesused: 1000,
            log: Vec::new(),
            queued: VecDeque::new(),
            lent: Vec::new(),
            mapped: Vec::new(),
            streaming: false,
            closed: 0,
        }
    }

    fn perform(&mut self, request: Request) -> Result<Reply, IoError> {
        let position = self.log.len();
        self.log.push(request);
        if let Some((at, code)) = self.fail_at {
            if at == position {
                return Err(IoError { code });
            }
        }
        match request {
            Request::SetFormat { width, height, fourcc, field } => {
                let (width, height, fourcc, field) =
                    self.format_reply.unwrap_or((width, height, fourcc, field));
                Ok(Reply::Format { width, height, fourcc, field })
            }
            Request::SetInterval { numerator, denominator } => {
                let (numerator, denominator) =
                    self.interval_reply.unwrap_or((numerator, denominator));
                Ok(Reply::Interval { numerator, denominator })
            }
            Request::RequestBuffers { .. } => Ok(Reply::Done),
            Request::QueryBuffer { index } => {
                Ok(Reply::Buffer { length: self.length, offset: index * self.length })
            }
            Request::MapRegion { length, offset } => {
                let addr = 0x10000 + offset as usize;
                self.mapped.push(Region { addr, length: length as usize });
                Ok(Reply::Mapped { addr })
            }
            Request::Enqueue { index } => {
                assert!(!self.queued.contains(&index), "buffer enqueued twice");
                self.lent.retain(|i| *i != index);
                self.queued.push_back(index);
                Ok(Reply::Done)
            }
            Request::StreamOn => {
                self.streaming = true;
                Ok(Reply::Done)
            }
            Request::Dequeue => match self.queued.pop_front() {
                Some(index) => {
                    assert!(!self.lent.contains(&index), "buffer handed out twice");
                    self.lent.push(index);
                    Ok(Reply::Dequeued { index, bytesused: self.bytesused })
                }
                None => Err(IoError { code: 11 }),
            },
            Request::StreamOff => {
                self.streaming = false;
                Ok(Reply::Done)
            }
            Request::UnmapRegion { region } => {
                let before = self.mapped.len();
                self.mapped.retain(|r| *r != region);
                assert_eq!(self.mapped.len() + 1, before, "region was not mapped");
                Ok(Reply::Done)
            }
            Request::Close => {
                self.closed += 1;
                Ok(Reply::Done)
            }
            _ => Err(IoError { code: 25 }),
        }
    }
}

fn drive(cam: &mut Camera, first: Step<Result<(), Error>>, dev: &mut Mock) -> Result<(), Error> {
    let mut step = first;
    loop {
        match step {
            Step::Perform(request) => {
                let reply = dev.perform(request);
                assert!(cam.expects(&reply));
                step = cam.resume(reply);
            }
            Step::Done(result) => return result,
        }
    }
}

fn start(cam: &mut Camera, config: &Config, dev: &mut Mock) -> Result<(), Error> {
    assert_eq!(cam.state(), State::Idle);
    assert_eq!(cam.phase(), Phase::Rest);
    let first = cam.start(config);
    drive(cam, first, dev)
}

fn stop(cam: &mut Camera, dev: &mut Mock) -> Result<(), Error> {
    assert_eq!(cam.state(), State::Streaming);
    assert_eq!(cam.phase(), Phase::Rest);
    let first = cam.stop();
    drive(cam, first, dev)
}

fn teardown(cam: &mut Camera, dev: &mut Mock) -> Result<(), Error> {
    assert_eq!(cam.phase(), Phase::Rest);
    let first = cam.teardown();
    drive(cam, first, dev)
}

fn dequeue(cam: &Camera, dev: &mut Mock) -> Result<Reply, IoError> {
    assert_eq!(cam.state(), State::Streaming);
    assert_eq!(cam.phase(), Phase::Rest);
    let reply = dev.perform(cam.dequeue());
    assert!(cam.delivers(&reply));
    reply
}

const YUYV: u32 = 0x5659_5559;

#[test]
fn default_config_is_as_documented() {
    let config = Config::default();
    assert_eq!(config.interval, (1, 10));
    assert_eq!(config.resolution, (640, 480));
    assert_eq!(config.format, b"YUYV");
    assert_eq!(config.field, Field::Progressive);
    assert_eq!(config.nbuffers, 2);
}

#[test]
fn field_codes_count_from_one() {
    assert_eq!(Field::Progressive.code(), 1);
    assert_eq!(Field::Top.code(), 2);
    assert_eq!(Field::Bottom.code(), 3);
    assert_eq!(Field::Interlaced.code(), 4);
    assert_eq!(Field::SeqTB.code(), 5);
    assert_eq!(Field::SeqBT.code(), 6);
    assert_eq!(Field::Alternate.code(), 7);
    assert_eq!(Field::InterlacedTB.code(), 8);
    assert_eq!(Field::InterlacedBT.code(), 9);
}

#[test]
fn new_session_is_idle_and_empty() {
    let cam = Camera::new(7);
    assert_eq!(cam.fd(), 7);
    assert_eq!(cam.state(), State::Idle);
    assert_eq!(cam.phase(), Phase::Rest);
    assert_eq!(cam.resolution(), (0, 0));
    assert_eq!(cam.format(), [0, 0, 0, 0]);
    assert!(cam.buffers().is_empty());
    assert!(!cam.is_closed());
    let alias = rscam::new(7);
    assert_eq!(alias.fd(), 7);
    assert_eq!(alias.state(), State::Idle);
}

#[test]
fn default_config_against_echo_device_streams_and_rotates() {
    let mut dev = Mock::new();
    let mut cam = Camera::new(3);
    assert_eq!(start(&mut cam, &Config::default(), &mut dev), Ok(()));
    assert_eq!(cam.state(), State::Streaming);
    assert_eq!(cam.resolution(), (640, 480));
    assert_eq!(cam.format(), *b"YUYV");
    assert_eq!(cam.buffers().len(), 2);

    let first = cam.capture(dequeue(&cam, &mut dev)).unwrap();
    let second = cam.capture(dequeue(&cam, &mut dev)).unwrap();
    let mut indices = vec![first.index, second.index];
    indices.sort();
    assert_eq!(indices, vec![0, 1]);
    assert_eq!(dev.perform(first.release()), Ok(Reply::Done));
    assert_eq!(dev.perform(second.release()), Ok(Reply::Done));

    let third = cam.capture(dequeue(&cam, &mut dev)).unwrap();
    let fourth = cam.capture(dequeue(&cam, &mut dev)).unwrap();
    let mut indices = vec![third.index, fourth.index];
    indices.sort();
    assert_eq!(indices, vec![0, 1]);
}

#[test]
fn start_asks_in_order() {
    let mut dev = Mock::new();
    let mut cam = Camera::new(3);
    assert_eq!(start(&mut cam, &Config::default(), &mut dev), Ok(()));
    assert_eq!(
        dev.log,
        vec![
            Request::SetFormat { width: 640, height: 480, fourcc: YUYV, field: 1 },
            Request::SetInterval { numerator: 1, denominator: 10 },
            Request::RequestBuffers { count: 2 },
            Request::QueryBuffer { index: 0 },
            Request::MapRegion { length: 4096, offset: 0 },
            Request::QueryBuffer { index: 1 },
            Request::MapRegion { length: 4096, offset: 4096 },
            Request::Enqueue { index: 0 },
            Request::Enqueue { index: 1 },
            Request::StreamOn,
        ]
    );
    assert_eq!(
        cam.buffers(),
        &[Region { addr: 0x10000, length: 4096 }, Region { addr: 0x11000, length: 4096 }]
    );
    assert!(dev.streaming);
}

#[test]
fn start_steps_through_its_phases() {
    let mut cam = Camera::new(3);
    let config = Config { nbuffers: 1, ..Config::default() };
    let step = cam.start(&config);
    assert_eq!(
        step,
        Step::Perform(Request::SetFormat { width: 640, height: 480, fourcc: YUYV, field: 1 })
    );
    assert_eq!(cam.phase(), Phase::Format);
    assert_eq!(cam.state(), State::Idle);
    let step = cam.resume(Ok(Reply::Format { width: 640, height: 480, fourcc: YUYV, field: 1 }));
    assert_eq!(step, Step::Perform(Request::SetInterval { numerator: 1, denominator: 10 }));
    assert_eq!(cam.phase(), Phase::Interval);
    let step = cam.resume(Ok(Reply::Interval { numerator: 1, denominator: 10 }));
    assert_eq!(step, Step::Perform(Request::RequestBuffers { count: 1 }));
    assert_eq!(cam.phase(), Phase::Buffers);
    let step = cam.resume(Ok(Reply::Done));
    assert_eq!(step, Step::Perform(Request::QueryBuffer { index: 0 }));
    assert_eq!(cam.phase(), Phase::Query);
    let step = cam.resume(Ok(Reply::Buffer { length: 614400, offset: 32 }));
    assert_eq!(step, Step::Perform(Request::MapRegion { length: 614400, offset: 32 }));
    assert_eq!(cam.phase(), Phase::Mapping { length: 614400 });
    let step = cam.resume(Ok(Reply::Mapped { addr: 0x7000 }));
    assert_eq!(step, Step::Perform(Request::Enqueue { index: 0 }));
    assert_eq!(cam.phase(), Phase::Enqueue { index: 0 });
    assert_eq!(cam.buffers(), &[Region { addr: 0x7000, length: 614400 }]);
    let step = cam.resume(Ok(Reply::Done));
    assert_eq!(step, Step::Perform(Request::StreamOn));
    assert_eq!(cam.phase(), Phase::StreamOn);
    assert_eq!(cam.state(), State::Idle);
    let step = cam.resume(Ok(Reply::Done));
    assert_eq!(step, Step::Done(Ok(())));
    assert_eq!(cam.phase(), Phase::Rest);
    assert_eq!(cam.state(), State::Streaming);
}

#[test]
fn start_without_buffers_streams_an_empty_pool() {
    let mut dev = Mock::new();
    let mut cam = Camera::new(3);
    let config = Config { nbuffers: 0, ..Config::default() };
    assert_eq!(start(&mut cam, &config, &mut dev), Ok(()));
    assert_eq!(cam.state(), State::Streaming);
    assert!(cam.buffers().is_empty());
    assert_eq!(
        dev.log,
        vec![
            Request::SetFormat { width: 640, height: 480, fourcc: YUYV, field: 1 },
            Request::SetInterval { numerator: 1, denominator: 10 },
            Request::RequestBuffers { count: 0 },
            Request::StreamOn,
        ]
    );
}

#[test]
fn start_records_what_was_negotiated() {
    let mut dev = Mock::new();
    let mut cam = Camera::new(3);
    let config = Config {
        interval: (1, 30),
        resolution: (1280, 720),
        format: b"MJPG",
        field: Field::Interlaced,
        nbuffers: 3,
    };
    assert_eq!(start(&mut cam, &config, &mut dev), Ok(()));
    assert_eq!(cam.resolution(), (1280, 720));
    assert_eq!(cam.format(), *b"MJPG");
    assert_eq!(cam.buffers().len(), 3);
    assert_eq!(
        dev.log[0],
        Request::SetFormat { width: 1280, height: 720, fourcc: 0x4750_4a4d, field: 4 }
    );
}

#[test]
fn adjusted_resolution_is_rejected() {
    let mut dev = Mock::new();
    dev.format_reply = Some((1280, 720, YUYV, 1));
    let mut cam = Camera::new(3);
    let config = Config { resolution: (1920, 1080), ..Config::default() };
    assert_eq!(start(&mut cam, &config, &mut dev), Err(Error::BadResolution));
    assert_eq!(cam.state(), State::Idle);
    assert_eq!(cam.phase(), Phase::Rest);
    assert!(cam.buffers().is_empty());
    assert_eq!(dev.log.len(), 1);
}

#[test]
fn adjusted_width_or_height_alone_is_rejected() {
    for reply in [(640, 481, YUYV, 1), (641, 480, YUYV, 1)] {
        let mut dev = Mock::new();
        dev.format_reply = Some(reply);
        let mut cam = Camera::new(3);
        assert_eq!(start(&mut cam, &Config::default(), &mut dev), Err(Error::BadResolution));
        assert_eq!(cam.state(), State::Idle);
    }
}

#[test]
fn adjusted_format_is_rejected() {
    let mut dev = Mock::new();
    dev.format_reply = Some((640, 480, 0x4750_4a4d, 1));
    let mut cam = Camera::new(3);
    assert_eq!(start(&mut cam, &Config::default(), &mut dev), Err(Error::BadFormat));
    assert_eq!(cam.state(), State::Idle);
    assert!(cam.buffers().is_empty());
}

#[test]
fn adjusted_field_is_rejected() {
    let mut dev = Mock::new();
    dev.format_reply = Some((640, 480, YUYV, 4));
    let mut cam = Camera::new(3);
    assert_eq!(start(&mut cam, &Config::default(), &mut dev), Err(Error::BadField));
    assert_eq!(cam.state(), State::Idle);
    assert!(cam.buffers().is_empty());
}

#[test]
fn first_difference_names_the_failure() {
    let mut dev = Mock::new();
    dev.format_reply = Some((320, 240, 0x4750_4a4d, 4));
    let mut cam = Camera::new(3);
    assert_eq!(start(&mut cam, &Config::default(), &mut dev), Err(Error::BadResolution));

    let mut dev = Mock::new();
    dev.format_reply = Some((640, 480, 0x4750_4a4d, 4));
    let mut cam = Camera::new(3);
    assert_eq!(start(&mut cam, &Config::default(), &mut dev), Err(Error::BadFormat));
}

#[test]
fn malformed_format_is_refused_before_the_device_is_asked() {
    for format in [&b"YUY"[..], &b"YUYV2"[..], &b""[..]] {
        let mut dev = Mock::new();
        let mut cam = Camera::new(3);
        let config = Config { format, ..Config::default() };
        assert_eq!(cam.start(&config), Step::Done(Err(Error::BadFormat)));
        assert_eq!(start(&mut cam, &config, &mut dev), Err(Error::BadFormat));
        assert!(dev.log.is_empty());
        assert_eq!(cam.state(), State::Idle);
        assert_eq!(cam.phase(), Phase::Rest);
    }
}

#[test]
fn session_can_be_started_again_after_a_rejection() {
    let mut dev = Mock::new();
    dev.format_reply = Some((1280, 720, YUYV, 1));
    let mut cam = Camera::new(3);
    assert_eq!(start(&mut cam, &Config::default(), &mut dev), Err(Error::BadResolution));
    dev.format_reply = None;
    assert_eq!(start(&mut cam, &Config::default(), &mut dev), Ok(()));
    assert_eq!(cam.state(), State::Streaming);
}

#[test]
fn interval_with_a_zero_is_rejected() {
    for reply in [(0, 10), (1, 0), (0, 0)] {
        let mut dev = Mock::new();
        dev.interval_reply = Some(reply);
        let mut cam = Camera::new(3);
        assert_eq!(start(&mut cam, &Config::default(), &mut dev), Err(Error::BadInterval));
        assert_eq!(cam.state(), State::Idle);
        assert!(cam.buffers().is_empty());
        assert_eq!(dev.log.len(), 2);
    }
}

#[test]
fn requested_interval_with_a_zero_is_rejected() {
    // Whatever the device answers, an echo of the request included.
    for asked in [(0, 0), (0, 10), (1, 0), (0, 1), (4294967295, 0)] {
        for reply in [None, Some((1, 30)), Some((1, 10)), Some((0, 0)), Some((7, 7))] {
            let mut dev = Mock::new();
            dev.interval_reply = reply;
            let mut cam = Camera::new(3);
            let config = Config { interval: asked, ..Config::default() };
            assert_eq!(start(&mut cam, &config, &mut dev), Err(Error::BadInterval));
            assert_eq!(cam.state(), State::Idle);
            assert_eq!(cam.phase(), Phase::Rest);
            assert!(cam.buffers().is_empty());
            assert_eq!(
                dev.log,
                vec![
                    Request::SetFormat { width: 640, height: 480, fourcc: YUYV, field: 1 },
                    Request::SetInterval { numerator: asked.0, denominator: asked.1 },
                ]
            );
        }
    }
}

#[test]
fn requested_zero_interval_against_a_real_answer_is_rejected() {
    let mut cam = Camera::new(3);
    let config = Config { interval: (0, 0), ..Config::default() };
    cam.start(&config);
    let step = cam.resume(Ok(Reply::Format { width: 640, height: 480, fourcc: YUYV, field: 1 }));
    assert_eq!(step, Step::Perform(Request::SetInterval { numerator: 0, denominator: 0 }));
    let step = cam.resume(Ok(Reply::Interval { numerator: 1, denominator: 30 }));
    assert_eq!(step, Step::Done(Err(Error::BadInterval)));
    assert_eq!(cam.state(), State::Idle);
}

#[test]
fn capture_begins_with_a_dequeue() {
    let mut dev = Mock::new();
    let mut cam = Camera::new(3);
    assert_eq!(start(&mut cam, &Config::default(), &mut dev), Ok(()));
    assert_eq!(cam.dequeue(), Request::Dequeue);
    assert_eq!(cam.state(), State::Streaming);
    assert_eq!(cam.phase(), Phase::Rest);
}

#[test]
fn unequal_interval_is_rejected() {
    for reply in [(1, 30), (2, 10), (1, 11), (10, 1)] {
        let mut dev = Mock::new();
        dev.interval_reply = Some(reply);
        let mut cam = Camera::new(3);
        assert_eq!(start(&mut cam, &Config::default(), &mut dev), Err(Error::BadInterval));
        assert_eq!(cam.state(), State::Idle);
    }
}

#[test]
fn equal_rational_interval_is_accepted() {
    for reply in [(1, 10), (3, 30), (100, 1000), (429496729, 4294967290)] {
        let mut dev = Mock::new();
        dev.interval_reply = Some(reply);
        let mut cam = Camera::new(3);
        assert_eq!(start(&mut cam, &Config::default(), &mut dev), Ok(()));
        assert_eq!(cam.state(), State::Streaming);
    }
}

#[test]
fn interval_products_are_compared_in_full() {
    // 131073 * 1 and 65537 * 65537 differ by exactly 2^32.
    let mut dev = Mock::new();
    dev.interval_reply = Some((65537, 1));
    let mut cam = Camera::new(3);
    let config = Config { interval: (131073, 65537), ..Config::default() };
    assert_eq!(start(&mut cam, &config, &mut dev), Err(Error::BadInterval));

    let mut dev = Mock::new();
    dev.interval_reply = Some((4294967295, 4294967295));
    let mut cam = Camera::new(3);
    let config = Config { interval: (4294967295, 4294967295), ..Config::default() };
    assert_eq!(start(&mut cam, &config, &mut dev), Ok(()));
}

#[test]
fn failure_before_any_mapping_ends_the_start() {
    for at in 0..3 {
        let mut dev = Mock::new();
        dev.fail_at = Some((at, 5));
        let mut cam = Camera::new(3);
        assert_eq!(
            start(&mut cam, &Config::default(), &mut dev),
            Err(Error::Io(IoError { code: 5 }))
        );
        assert_eq!(cam.state(), State::Idle);
        assert_eq!(cam.phase(), Phase::Rest);
        assert!(cam.buffers().is_empty());
        assert_eq!(dev.log.len(), at + 1);
    }
}

#[test]
fn failed_mapping_unmaps_what_was_mapped() {
    let mut dev = Mock::new();
    // Requests 0 to 4 succeed; the query of the second buffer fails.
    dev.fail_at = Some((5, 12));
    let mut cam = Camera::new(3);
    assert_eq!(
        start(&mut cam, &Config::default(), &mut dev),
        Err(Error::Io(IoError { code: 12 }))
    );
    assert_eq!(cam.state(), State::Idle);
    assert!(cam.buffers().is_empty());
    assert!(dev.mapped.is_empty());
    assert_eq!(
        dev.log[6..],
        [Request::UnmapRegion { region: Region { addr: 0x10000, length: 4096 } }]
    );
}

#[test]
fn failed_second_mapping_unmaps_the_first() {
    let mut dev = Mock::new();
    dev.fail_at = Some((6, 12));
    let mut cam = Camera::new(3);
    assert_eq!(
        start(&mut cam, &Config::default(), &mut dev),
        Err(Error::Io(IoError { code: 12 }))
    );
    assert!(cam.buffers().is_empty());
    assert_eq!(dev.log.len(), 8);
    assert_eq!(
        dev.log[7],
        Request::UnmapRegion { region: Region { addr: 0x10000, length: 4096 } }
    );
}

#[test]
fn failed_stream_on_frees_the_pool() {
    let mut dev = Mock::new();
    dev.fail_at = Some((9, 16));
    let mut cam = Camera::new(3);
    assert_eq!(
        start(&mut cam, &Config::default(), &mut dev),
        Err(Error::Io(IoError { code: 16 }))
    );
    assert_eq!(cam.state(), State::Idle);
    assert!(cam.buffers().is_empty());
    assert!(dev.mapped.is_empty());
    assert_eq!(
        dev.log[10..],
        [
            Request::UnmapRegion { region: Region { addr: 0x10000, length: 4096 } },
            Request::UnmapRegion { region: Region { addr: 0x11000, length: 4096 } },
        ]
    );
}

#[test]
fn failed_enqueue_frees_the_pool() {
    let mut dev = Mock::new();
    dev.fail_at = Some((8, 22));
    let mut cam = Camera::new(3);
    assert_eq!(
        start(&mut cam, &Config::default(), &mut dev),
        Err(Error::Io(IoError { code: 22 }))
    );
    assert_eq!(cam.state(), State::Idle);
    assert!(cam.buffers().is_empty());
    assert!(dev.mapped.is_empty());
}

#[test]
fn failures_while_unwinding_are_passed_over() {
    let mut cam = Camera::new(3);
    let config = Config { nbuffers: 1, ..Config::default() };
    cam.start(&config);
    cam.resume(Ok(Reply::Format { width: 640, height: 480, fourcc: YUYV, field: 1 }));
    cam.resume(Ok(Reply::Interval { numerator: 1, denominator: 10 }));
    cam.resume(Ok(Reply::Done));
    cam.resume(Ok(Reply::Buffer { length: 64, offset: 0 }));
    cam.resume(Ok(Reply::Mapped { addr: 0x7000 }));
    cam.resume(Ok(Reply::Done));
    let step = cam.resume(Err(IoError { code: 16 }));
    assert_eq!(
        step,
        Step::Perform(Request::UnmapRegion { region: Region { addr: 0x7000, length: 64 } })
    );
    assert_eq!(cam.phase(), Phase::Unwind { index: 0, cause: IoError { code: 16 } });
    let step = cam.resume(Err(IoError { code: 9 }));
    assert_eq!(step, Step::Done(Err(Error::Io(IoError { code: 16 }))));
    assert_eq!(cam.state(), State::Idle);
    assert!(cam.buffers().is_empty());
}

#[test]
fn capture_makes_a_frame_of_the_answer() {
    let mut dev = Mock::new();
    dev.bytesused = 1234;
    let mut cam = Camera::new(9);
    assert_eq!(start(&mut cam, &Config::default(), &mut dev), Ok(()));
    let frame = cam.capture(dequeue(&cam, &mut dev)).unwrap();
    assert_eq!(frame.index, 0);
    assert_eq!(frame.fd, 9);
    assert_eq!(frame.used, 1234);
    assert_eq!(*frame.region, Region { addr: 0x10000, length: 4096 });
    assert_eq!(frame.resolution, (640, 480));
    assert_eq!(frame.format, *b"YUYV");
    assert_eq!(frame.release(), Request::Enqueue { index: 0 });
}

#[test]
fn capture_takes_a_full_and_an_empty_buffer() {
    let mut dev = Mock::new();
    let mut cam = Camera::new(3);
    assert_eq!(start(&mut cam, &Config::default(), &mut dev), Ok(()));
    let full = Ok(Reply::Dequeued { index: 1, bytesused: 4096 });
    assert!(cam.delivers(&full));
    let frame = cam.capture(full).unwrap();
    assert_eq!(frame.used, 4096);
    assert_eq!(frame.index, 1);
    assert_eq!(*frame.region, Region { addr: 0x11000, length: 4096 });
    let empty = Ok(Reply::Dequeued { index: 0, bytesused: 0 });
    assert!(cam.delivers(&empty));
    assert_eq!(cam.capture(empty).unwrap().used, 0);
}

#[test]
fn capture_hands_a_failure_on() {
    let mut dev = Mock::new();
    let mut cam = Camera::new(3);
    assert_eq!(start(&mut cam, &Config::default(), &mut dev), Ok(()));
    let failure = Err(IoError { code: 19 });
    assert!(cam.delivers(&failure));
    assert_eq!(cam.capture(failure).err(), Some(IoError { code: 19 }));
    assert_eq!(cam.state(), State::Streaming);
}

#[test]
fn answers_that_are_no_frame_are_told_apart() {
    let mut dev = Mock::new();
    let mut cam = Camera::new(3);
    assert_eq!(start(&mut cam, &Config::default(), &mut dev), Ok(()));
    assert!(!cam.delivers(&Ok(Reply::Dequeued { index: 2, bytesused: 0 })));
    assert!(!cam.delivers(&Ok(Reply::Dequeued { index: u32::MAX, bytesused: 0 })));
    assert!(!cam.delivers(&Ok(Reply::Dequeued { index: 0, bytesused: 4097 })));
    assert!(!cam.delivers(&Ok(Reply::Done)));
    assert!(cam.delivers(&Ok(Reply::Dequeued { index: 1, bytesused: 4096 })));
}

#[test]
fn one_live_frame_per_buffer() {
    let mut dev = Mock::new();
    let mut cam = Camera::new(3);
    let config = Config { nbuffers: 3, ..Config::default() };
    assert_eq!(start(&mut cam, &config, &mut dev), Ok(()));
    let a = cam.capture(dequeue(&cam, &mut dev)).unwrap();
    let b = cam.capture(dequeue(&cam, &mut dev)).unwrap();
    let c = cam.capture(dequeue(&cam, &mut dev)).unwrap();
    assert_ne!(a.index, b.index);
    assert_ne!(a.index, c.index);
    assert_ne!(b.index, c.index);
    // Every buffer is lent: the device has none to deliver.
    assert!(dev.perform(cam.dequeue()).is_err());
    let returned = b.index;
    assert_eq!(dev.perform(b.release()), Ok(Reply::Done));
    let again = cam.capture(dequeue(&cam, &mut dev)).unwrap();
    assert_eq!(again.index, returned);
    assert_ne!(again.index, a.index);
    assert_ne!(again.index, c.index);
}

#[test]
fn released_buffer_comes_round_again() {
    let mut dev = Mock::new();
    let mut cam = Camera::new(3);
    let config = Config { nbuffers: 1, ..Config::default() };
    assert_eq!(start(&mut cam, &config, &mut dev), Ok(()));
    for _ in 0..5 {
        let frame = cam.capture(dequeue(&cam, &mut dev)).unwrap();
        assert_eq!(frame.index, 0);
        let request = frame.release();
        assert_eq!(request, Request::Enqueue { index: 0 });
        assert_eq!(dev.perform(request), Ok(Reply::Done));
    }
}

#[test]
fn stop_switches_off_and_unmaps_every_buffer() {
    let mut dev = Mock::new();
    let mut cam = Camera::new(3);
    assert_eq!(start(&mut cam, &Config::default(), &mut dev), Ok(()));
    dev.log.clear();
    assert_eq!(stop(&mut cam, &mut dev), Ok(()));
    assert_eq!(cam.state(), State::Aborted);
    assert_eq!(cam.phase(), Phase::Rest);
    assert!(cam.buffers().is_empty());
    assert!(dev.mapped.is_empty());
    assert!(!dev.streaming);
    assert_eq!(
        dev.log,
        vec![
            Request::StreamOff,
            Request::UnmapRegion { region: Region { addr: 0x10000, length: 4096 } },
            Request::UnmapRegion { region: Region { addr: 0x11000, length: 4096 } },
        ]
    );
}

#[test]
fn stop_that_fails_to_switch_off_still_aborts() {
    let mut dev = Mock::new();
    let mut cam = Camera::new(3);
    assert_eq!(start(&mut cam, &Config::default(), &mut dev), Ok(()));
    dev.fail_at = Some((dev.log.len(), 5));
    assert_eq!(stop(&mut cam, &mut dev), Err(Error::Io(IoError { code: 5 })));
    assert_eq!(cam.state(), State::Aborted);
    assert!(cam.buffers().is_empty());
    assert!(dev.mapped.is_empty());
}

#[test]
fn stop_keeps_the_first_failure() {
    let mut cam = Camera::new(3);
    let mut dev = Mock::new();
    assert_eq!(start(&mut cam, &Config::default(), &mut dev), Ok(()));
    assert_eq!(cam.stop(), Step::Perform(Request::StreamOff));
    assert_eq!(cam.phase(), Phase::StreamOff);
    assert_eq!(
        cam.resume(Ok(Reply::Done)),
        Step::Perform(Request::UnmapRegion { region: Region { addr: 0x10000, length: 4096 } })
    );
    assert_eq!(cam.phase(), Phase::Release { index: 0, failure: None });
    assert_eq!(
        cam.resume(Err(IoError { code: 1 })),
        Step::Perform(Request::UnmapRegion { region: Region { addr: 0x11000, length: 4096 } })
    );
    assert_eq!(cam.phase(), Phase::Release { index: 1, failure: Some(IoError { code: 1 }) });
    assert_eq!(cam.resume(Err(IoError { code: 2 })), Step::Done(Err(Error::Io(IoError { code: 1 }))));
    assert_eq!(cam.state(), State::Aborted);
    assert!(cam.buffers().is_empty());
}

#[test]
fn stop_reports_a_late_failure() {
    let mut cam = Camera::new(3);
    let mut dev = Mock::new();
    assert_eq!(start(&mut cam, &Config::default(), &mut dev), Ok(()));
    cam.stop();
    cam.resume(Ok(Reply::Done));
    cam.resume(Ok(Reply::Done));
    assert_eq!(cam.resume(Err(IoError { code: 2 })), Step::Done(Err(Error::Io(IoError { code: 2 }))));
    assert_eq!(cam.state(), State::Aborted);
}

#[test]
fn stop_of_an_empty_pool_only_switches_off() {
    let mut dev = Mock::new();
    let mut cam = Camera::new(3);
    let config = Config { nbuffers: 0, ..Config::default() };
    assert_eq!(start(&mut cam, &config, &mut dev), Ok(()));
    dev.log.clear();
    assert_eq!(stop(&mut cam, &mut dev), Ok(()));
    assert_eq!(dev.log, vec![Request::StreamOff]);
    assert_eq!(cam.state(), State::Aborted);
}

#[test]
fn aborted_session_stays_aborted() {
    let mut dev = Mock::new();
    let mut cam = Camera::new(3);
    assert_eq!(start(&mut cam, &Config::default(), &mut dev), Ok(()));
    assert_eq!(stop(&mut cam, &mut dev), Ok(()));
    assert_eq!(cam.state(), State::Aborted);
    // No request is pending, so no answer is taken.
    assert!(!cam.expects(&Ok(Reply::Done)));
    assert!(!cam.expects(&Err(IoError { code: 5 })));
    assert_eq!(teardown(&mut cam, &mut dev), Ok(()));
    assert_eq!(cam.state(), State::Aborted);
    assert!(cam.is_closed());
    assert_eq!(teardown(&mut cam, &mut dev), Ok(()));
    assert_eq!(cam.state(), State::Aborted);
}

#[test]
fn teardown_of_a_streaming_session_stops_and_closes() {
    let mut dev = Mock::new();
    let mut cam = Camera::new(3);
    assert_eq!(start(&mut cam, &Config::default(), &mut dev), Ok(()));
    dev.log.clear();
    assert_eq!(teardown(&mut cam, &mut dev), Ok(()));
    assert_eq!(
        dev.log,
        vec![
            Request::StreamOff,
            Request::UnmapRegion { region: Region { addr: 0x10000, length: 4096 } },
            Request::UnmapRegion { region: Region { addr: 0x11000, length: 4096 } },
            Request::Close,
        ]
    );
    assert_eq!(cam.state(), State::Aborted);
    assert!(cam.buffers().is_empty());
    assert!(cam.is_closed());
    assert_eq!(dev.closed, 1);
}

#[test]
fn teardown_passes_failures_over() {
    let mut cam = Camera::new(3);
    let mut dev = Mock::new();
    assert_eq!(start(&mut cam, &Config::default(), &mut dev), Ok(()));
    assert_eq!(cam.teardown(), Step::Perform(Request::StreamOff));
    assert!(matches!(cam.resume(Err(IoError { code: 1 })), Step::Perform(Request::UnmapRegion { .. })));
    assert!(matches!(cam.resume(Err(IoError { code: 2 })), Step::Perform(Request::UnmapRegion { .. })));
    assert_eq!(cam.resume(Err(IoError { code: 3 })), Step::Perform(Request::Close));
    assert_eq!(cam.phase(), Phase::Close);
    assert_eq!(cam.resume(Err(IoError { code: 4 })), Step::Done(Ok(())));
    assert!(cam.is_closed());
    assert_eq!(cam.state(), State::Aborted);
}

#[test]
fn teardown_of_an_idle_session_only_closes() {
    let mut dev = Mock::new();
    let mut cam = Camera::new(3);
    assert_eq!(teardown(&mut cam, &mut dev), Ok(()));
    assert_eq!(dev.log, vec![Request::Close]);
    assert!(cam.is_closed());
    assert_eq!(cam.state(), State::Aborted);
}

#[test]
fn device_is_closed_once() {
    let mut dev = Mock::new();
    let mut cam = Camera::new(3);
    assert_eq!(start(&mut cam, &Config::default(), &mut dev), Ok(()));
    assert_eq!(teardown(&mut cam, &mut dev), Ok(()));
    assert_eq!(cam.teardown(), Step::Done(Ok(())));
    assert_eq!(teardown(&mut cam, &mut dev), Ok(()));
    assert_eq!(dev.closed, 1);
}

#[test]
fn answers_of_the_wrong_kind_are_told_apart() {
    let mut cam = Camera::new(3);
    assert!(!cam.expects(&Ok(Reply::Done)));
    assert!(!cam.expects(&Err(IoError { code: 5 })));
    cam.start(&Config::default());
    assert!(cam.expects(&Ok(Reply::Format { width: 1, height: 1, fourcc: 1, field: 1 })));
    assert!(cam.expects(&Err(IoError { code: 5 })));
    assert!(!cam.expects(&Ok(Reply::Done)));
    assert!(!cam.expects(&Ok(Reply::Interval { numerator: 1, denominator: 10 })));
    cam.resume(Ok(Reply::Format { width: 640, height: 480, fourcc: YUYV, field: 1 }));
    assert!(cam.expects(&Ok(Reply::Interval { numerator: 1, denominator: 10 })));
    assert!(!cam.expects(&Ok(Reply::Format { width: 1, height: 1, fourcc: 1, field: 1 })));
    cam.resume(Ok(Reply::Interval { numerator: 1, denominator: 10 }));
    assert!(cam.expects(&Ok(Reply::Done)));
    assert!(!cam.expects(&Ok(Reply::Mapped { addr: 0 })));
    cam.resume(Ok(Reply::Done));
    assert!(cam.expects(&Ok(Reply::Buffer { length: 1, offset: 0 })));
    assert!(!cam.expects(&Ok(Reply::Done)));
    cam.resume(Ok(Reply::Buffer { length: 1, offset: 0 }));
    assert!(cam.expects(&Ok(Reply::Mapped { addr: 0 })));
    assert!(!cam.expects(&Ok(Reply::Buffer { length: 1, offset: 0 })));
}

#[test]
fn io_failure_becomes_an_error() {
    assert_eq!(Error::from(IoError { code: 5 }), Error::Io(IoError { code: 5 }));
    assert!(IoError { code: 22 }.is_invalid_argument());
    assert!(!IoError { code: 5 }.is_invalid_argument());
}

#[test]
fn formats_can_be_listed_while_idle() {
    let cam = Camera::new(3);
    let (scan, request) = cam.formats();
    assert_eq!(request, Request::EnumFormat { index: 0 });
    assert_eq!(scan.level(), rscam::scan::Level::Formats);
    assert_eq!(cam.state(), State::Idle);
}
