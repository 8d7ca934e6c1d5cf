use std::sync::mpsc;
use std::time::Duration;

use scap::backend::Backend;
use scap::channel::FrameSink;
use scap::engine::Engine;
use scap::engine::EngineState;
use scap::error::ErrorKind;
use scap::frame::Frame;
use scap::mock::MockBackend;
use scap::mock::SizelessBackend;
use scap::options::Options;

fn display_options() -> Options {
    Options {
        target: "display-0".to_string(),
        width: 1920,
        height: 1080,
        fps: 60,
    }
}

#[test]
fn create_succeeds_for_valid_options() {
    let (tx, _rx) = mpsc::channel::<Frame>();
    let engine = Engine::<MockBackend>::new(&display_options(), tx);
    assert!(engine.is_ok());
    let mut engine = engine.unwrap();
    assert_eq!(engine.current_state(), EngineState::Constructed);
    assert!(engine.last_diagnostic().is_none());
    engine.start();
    engine.stop();
}

#[test]
fn create_rejects_empty_target() {
    let (tx, rx) = mpsc::channel::<Frame>();
    let options = Options {
        target: String::new(),
        width: 1920,
        height: 1080,
        fps: 60,
    };
    let engine = Engine::<MockBackend>::new(&options, tx);
    match engine {
        Ok(_) => panic!("an unnamed target must be rejected"),
        Err(kind) => assert!(matches!(kind, ErrorKind::BackendInitError(_))),
    }
    // The producer half died with the failed construction: the channel sees
    // no frame, ever, only the disconnect.
    assert!(matches!(rx.try_recv(), Err(mpsc::TryRecvError::Disconnected)));
}

#[test]
fn create_rejects_empty_geometry() {
    let (tx, _rx) = mpsc::channel::<Frame>();
    let options = Options {
        target: "display-0".to_string(),
        width: 0,
        height: 1080,
        fps: 60,
    };
    match Engine::<MockBackend>::new(&options, tx) {
        Ok(_) => panic!("a zero-width geometry must be rejected"),
        Err(kind) => assert!(matches!(kind, ErrorKind::BackendInitError(_))),
    }
}

#[test]
fn round_trip_output_size() {
    let (tx, _rx) = mpsc::channel::<Frame>();
    let mut engine = match Engine::<MockBackend>::new(&display_options(), tx) {
        Ok(engine) => engine,
        Err(_) => panic!("construction must succeed"),
    };
    assert_eq!(engine.get_output_frame_size(), (1920, 1080));
}

#[test]
fn size_sentinel_exactly_when_unsupported() {
    let (tx, _rx) = mpsc::channel::<Frame>();
    let mut blind = match Engine::<SizelessBackend>::new(&display_options(), tx) {
        Ok(engine) => engine,
        Err(_) => panic!("construction must succeed"),
    };
    assert_eq!(blind.get_output_frame_size(), (0, 0));

    let (tx, _rx) = mpsc::channel::<Frame>();
    let mut sighted = match Engine::<MockBackend>::new(&display_options(), tx) {
        Ok(engine) => engine,
        Err(_) => panic!("construction must succeed"),
    };
    assert_ne!(sighted.get_output_frame_size(), (0, 0));
}

#[test]
fn stop_before_start_is_a_safe_noop() {
    let (tx, rx) = mpsc::channel::<Frame>();
    let mut engine = match Engine::<MockBackend>::new(&display_options(), tx) {
        Ok(engine) => engine,
        Err(_) => panic!("construction must succeed"),
    };
    engine.stop();
    assert_eq!(engine.current_state(), EngineState::Stopped);
    assert!(engine.last_diagnostic().is_none());
    assert!(matches!(rx.try_recv(), Err(mpsc::TryRecvError::Empty)));
}

#[test]
fn stop_twice_is_idempotent() {
    let (tx, rx) = mpsc::channel::<Frame>();
    let mut engine = match Engine::<MockBackend>::new(&display_options(), tx) {
        Ok(engine) => engine,
        Err(_) => panic!("construction must succeed"),
    };
    engine.start();
    engine.stop();
    engine.stop();
    assert_eq!(engine.current_state(), EngineState::Stopped);
    assert!(engine.last_diagnostic().is_none());
    assert!(matches!(rx.try_recv(), Err(mpsc::TryRecvError::Empty)));
}

#[test]
fn start_is_effective_only_once() {
    let (tx, _rx) = mpsc::channel::<Frame>();
    let mut engine = match Engine::<MockBackend>::new(&display_options(), tx) {
        Ok(engine) => engine,
        Err(_) => panic!("construction must succeed"),
    };
    engine.start();
    engine.start();
    assert_eq!(engine.current_state(), EngineState::Started);
    engine.stop();
    engine.start();
    assert_eq!(engine.current_state(), EngineState::Stopped);
}

#[test]
fn a_frame_arrives_after_start() {
    let (tx, rx) = mpsc::channel::<Frame>();
    let sink = FrameSink::new(tx);
    let mut backend = MockBackend::create(&display_options(), sink).unwrap();
    backend.start_capture().unwrap();
    backend.produce_frame(0, 5, vec![7, 7, 7]);
    let frame = rx
        .recv_timeout(Duration::from_secs(5))
        .expect("a frame must arrive once capture has started");
    assert_eq!(frame.seq, 0);
    assert_eq!(frame.timestamp_ms, 5);
    assert_eq!(frame.width, 1920);
    assert_eq!(frame.height, 1080);
    assert_eq!(frame.data, vec![7, 7, 7]);
}

#[test]
fn three_frames_arrive_in_production_order() {
    let (tx, rx) = mpsc::channel::<Frame>();
    let sink = FrameSink::new(tx);
    let mut backend = MockBackend::create(&display_options(), sink).unwrap();
    backend.start_capture().unwrap();
    backend.produce_frame(1, 10, vec![1]);
    backend.produce_frame(2, 20, vec![2]);
    backend.produce_frame(3, 30, vec![3]);
    backend.stop_capture().unwrap();
    drop(backend);
    let mut seqs = Vec::new();
    while let Ok(frame) = rx.recv() {
        seqs.push(frame.seq);
    }
    assert_eq!(seqs, vec![1, 2, 3]);
    // The producer is gone; the channel is closed for good.
    assert!(matches!(rx.try_recv(), Err(mpsc::TryRecvError::Disconnected)));
}

#[test]
fn no_frame_is_delivered_after_stop() {
    let (tx, rx) = mpsc::channel::<Frame>();
    let sink = FrameSink::new(tx);
    let mut backend = MockBackend::create(&display_options(), sink).unwrap();
    backend.start_capture().unwrap();
    backend.produce_frame(1, 10, vec![]);
    backend.stop_capture().unwrap();
    backend.produce_frame(2, 20, vec![]);
    assert!(!backend.is_started());
    let first = rx.recv_timeout(Duration::from_secs(5)).unwrap();
    assert_eq!(first.seq, 1);
    assert!(matches!(rx.try_recv(), Err(mpsc::TryRecvError::Empty)));
}

#[test]
fn nothing_is_delivered_before_start() {
    let (tx, rx) = mpsc::channel::<Frame>();
    let sink = FrameSink::new(tx);
    let mut backend = MockBackend::create(&display_options(), sink).unwrap();
    backend.produce_frame(1, 10, vec![]);
    assert!(!backend.is_started());
    assert!(matches!(rx.try_recv(), Err(mpsc::TryRecvError::Empty)));
}

#[test]
fn sizeless_backend_accepts_any_options() {
    let (tx, _rx) = mpsc::channel::<Frame>();
    let options = Options {
        target: String::new(),
        width: 0,
        height: 0,
        fps: 0,
    };
    let engine = Engine::<SizelessBackend>::new(&options, tx);
    assert!(engine.is_ok());
}

#[test]
fn error_kind_keeps_the_native_message() {
    let init = ErrorKind::BackendInitError("permission denied".to_string());
    assert_eq!(init.message().as_str(), "permission denied");
    let start = ErrorKind::CaptureStartError("code -3801".to_string());
    assert_eq!(start.message().as_str(), "code -3801");
    let stop = ErrorKind::CaptureStopError("already stopped".to_string());
    assert_eq!(stop.message().as_str(), "already stopped");
}

#[test]
fn options_clone_is_a_deep_copy() {
    let options = display_options();
    let copy = options.clone();
    assert_eq!(copy.target, options.target);
    assert_eq!(copy.width, options.width);
    assert_eq!(copy.height, options.height);
    assert_eq!(copy.fps, options.fps);
}
