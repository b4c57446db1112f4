use glycin::api::{
    FrameRequest, Image, ImageEvent, ImageState, Loader, SandboxMechanism,
};
use glycin::dbus::{BinaryData, Frame, ImageInfo};
use glycin::error::{Error, RemoteError};
use glycin::memory_format::MemoryFormat;
use glycin::process::{
    all_seals, frame_segments, info_segments, init_outcome, seal_step, startup_outcome, FileSeal,
    InitEvent, SealStep, StartupEvent, SEAL_RETRIES,
};
use glycin::worker::{WorkerAction, WorkerEvent, WorkerState, BUF_SIZE};

fn s(text: &str) -> String {
    text.to_string()
}

#[test]
fn a_loader_that_ends_at_once_is_reported_with_its_command() {
    let command = "\"bwrap\" \"--unshare-all\" \"/usr/libexec/glycin-loaders/1+/glycin-image-rs\"";
    let outcome = startup_outcome(StartupEvent::Exited { status: Some(1) }, command);
    assert!(!outcome.kill_loader);
    match outcome.result {
        Err(Error::PrematureExit { status, cmd }) => {
            assert_eq!(status, Some(1));
            assert!(cmd.contains("/usr/libexec/glycin-loaders/1+/glycin-image-rs"));
            assert_eq!(cmd, command);
        }
        other => panic!("{other:?}"),
    }
    let outcome = startup_outcome(StartupEvent::Exited { status: None }, command);
    assert!(matches!(outcome.result, Err(Error::PrematureExit { status: None, .. })));
}

#[test]
fn the_start_ends_as_the_first_event_says() {
    let outcome = startup_outcome(StartupEvent::Connected, "cmd");
    assert!(outcome.result.is_ok());
    assert!(!outcome.kill_loader);
    let outcome = startup_outcome(StartupEvent::Cancelled, "cmd");
    assert!(matches!(outcome.result, Err(Error::InternalCommunicationCanceled)));
    assert!(outcome.kill_loader);
    let outcome = startup_outcome(StartupEvent::WaitFailed { err: s("no child") }, "cmd");
    assert!(!outcome.kill_loader);
    assert!(matches!(
        outcome.result,
        Err(Error::StdIoError { err, info }) if err == "no child" && info == "cmd"
    ));
}

#[test]
fn opening_the_image_ends_as_the_first_event_says() {
    let info = ImageInfo::new(640, 480);
    let opened = init_outcome(InitEvent::Reply(Ok(info))).unwrap();
    assert_eq!((opened.width, opened.height), (640, 480));
    assert!(matches!(
        init_outcome(InitEvent::Reply(Err(RemoteError::LoadingError(s("broken"))))),
        Err(Error::RemoteError(RemoteError::LoadingError(m))) if m == "broken"
    ));
    assert!(matches!(
        init_outcome(InitEvent::ReaderFailed(Error::GLibError(s("no such file")))),
        Err(Error::GLibError(m)) if m == "no such file"
    ));
    assert!(matches!(init_outcome(InitEvent::Cancelled), Err(Error::InternalCommunicationCanceled)));
}

#[test]
fn the_memory_that_came_with_the_answers_is_sealed() {
    let mut info = ImageInfo::new(1, 1);
    assert!(info_segments(&info).is_empty());
    info.details.xmp = Some(BinaryData { memfd: 8 });
    assert_eq!(info_segments(&info), vec![BinaryData { memfd: 8 }]);
    info.details.exif = Some(BinaryData { memfd: 5 });
    assert_eq!(info_segments(&info), vec![BinaryData { memfd: 5 }, BinaryData { memfd: 8 }]);
    let mut frame = Frame::new(1, 1, MemoryFormat::G8, BinaryData { memfd: 3 }).unwrap();
    assert!(frame_segments(&frame).is_empty());
    frame.details.iccp = Some(BinaryData { memfd: 6 });
    assert_eq!(frame_segments(&frame), vec![BinaryData { memfd: 6 }]);
    assert_eq!(
        all_seals(),
        vec![FileSeal::SealShrink, FileSeal::SealGrow, FileSeal::SealWrite, FileSeal::SealSeal]
    );
}

#[test]
fn sealing_is_tried_again_but_not_for_ever() {
    assert_eq!(SEAL_RETRIES, 10000);
    assert!(matches!(seal_step(0, Ok(())), SealStep::Done));
    assert!(matches!(seal_step(10001, Ok(())), SealStep::Done));
    assert!(matches!(seal_step(0, Err(s("busy"))), SealStep::Retry));
    assert!(matches!(seal_step(10000, Err(s("busy"))), SealStep::Retry));
    assert!(matches!(
        seal_step(10001, Err(s("busy"))),
        SealStep::Failed(Error::MemFd(m)) if m == "busy"
    ));
    assert!(matches!(seal_step(u32::MAX, Err(s("busy"))), SealStep::Failed(_)));
    // A segment that stays busy is given up after 10002 attempts.
    let mut attempt = 0;
    let attempts = loop {
        match seal_step(attempt, Err(s("busy"))) {
            SealStep::Retry => attempt += 1,
            SealStep::Failed(_) => break attempt + 1,
            SealStep::Done => panic!(),
        }
    };
    assert_eq!(attempts, 10002);
}

fn run(reads: Vec<Vec<u8>>) -> (Vec<u8>, Vec<u8>, Result<(), Error>) {
    let mut reads = reads.into_iter();
    let mut published = Vec::new();
    let mut written = Vec::new();
    let (mut state, mut action) = WorkerState::new().step(WorkerEvent::Started);
    loop {
        let event = match action {
            WorkerAction::Read => WorkerEvent::Read(reads.next().unwrap_or_default()),
            WorkerAction::PublishHead(head) => {
                published = head;
                WorkerEvent::HeadPublished
            }
            WorkerAction::AwaitWriter => WorkerEvent::WriterConnected,
            WorkerAction::Write(bytes) => {
                written.extend(bytes);
                WorkerEvent::Written
            }
            WorkerAction::Finish(result) => return (published, written, result),
        };
        (state, action) = state.step(event);
    }
}

#[test]
fn the_worker_hands_on_what_it_reads() {
    assert_eq!(BUF_SIZE, 65535);
    let (head, written, result) = run(vec![vec![1, 2, 3], vec![4, 5], vec![6]]);
    assert!(result.is_ok());
    assert_eq!(head, vec![1, 2, 3]);
    assert_eq!(written, vec![1, 2, 3, 4, 5, 6]);
    let (head, written, result) = run(vec![]);
    assert!(result.is_ok());
    assert!(head.is_empty());
    assert!(written.is_empty());
    let (head, written, result) = run(vec![vec![9; 70000]]);
    assert!(result.is_ok());
    assert_eq!(head.len(), 70000);
    assert_eq!(written, vec![9; 70000]);
}

#[test]
fn the_worker_ends_with_the_error_that_it_met() {
    let (state, action) = WorkerState::new().step(WorkerEvent::Started);
    assert!(matches!(action, WorkerAction::Read));
    let (state, action) = state.step(WorkerEvent::Failed(Error::GLibError(s("gone"))));
    assert!(matches!(state, WorkerState::Finished));
    assert!(matches!(action, WorkerAction::Finish(Err(Error::GLibError(m))) if m == "gone"));
    let (state, action) = state.step(WorkerEvent::Read(vec![1]));
    assert!(matches!(state, WorkerState::Finished));
    assert!(matches!(action, WorkerAction::Finish(Err(Error::InternalCommunicationCanceled))));

    let (state, _) = WorkerState::new().step(WorkerEvent::Started);
    let (state, action) = state.step(WorkerEvent::Read(vec![1, 2]));
    assert!(matches!(&action, WorkerAction::PublishHead(h) if h == &vec![1, 2]));
    let (state, action) = state.step(WorkerEvent::Abandoned);
    assert!(matches!(state, WorkerState::Finished));
    assert!(matches!(action, WorkerAction::Finish(Err(Error::InternalCommunicationCanceled))));

    let (state, action) = WorkerState::new().step(WorkerEvent::Written);
    assert!(matches!(state, WorkerState::Finished));
    assert!(matches!(action, WorkerAction::Finish(Err(Error::InternalCommunicationCanceled))));
}

const STATES: [ImageState; 6] = [
    ImageState::Idle,
    ImageState::Initializing,
    ImageState::Ready,
    ImageState::Decoding,
    ImageState::Faulted,
    ImageState::Canceled,
];

const EVENTS: [ImageEvent; 6] = [
    ImageEvent::Load,
    ImageEvent::InitReply,
    ImageEvent::FrameRequest,
    ImageEvent::FrameReply,
    ImageEvent::Failure,
    ImageEvent::Cancel,
];

#[test]
fn an_image_goes_from_idle_to_ready_and_back_for_every_frame() {
    let mut state = ImageState::Idle;
    for (event, expected) in [
        (ImageEvent::Load, ImageState::Initializing),
        (ImageEvent::InitReply, ImageState::Ready),
        (ImageEvent::FrameRequest, ImageState::Decoding),
        (ImageEvent::FrameReply, ImageState::Ready),
        (ImageEvent::FrameRequest, ImageState::Decoding),
        (ImageEvent::Failure, ImageState::Faulted),
    ] {
        let (next, result) = state.step(event);
        assert!(result.is_ok(), "{state:?} {event:?}");
        assert_eq!(next, expected);
        state = next;
    }
    for event in [ImageEvent::Load, ImageEvent::FrameRequest, ImageEvent::InitReply, ImageEvent::FrameReply] {
        let (next, result) = state.step(event);
        assert_eq!(next, ImageState::Faulted);
        assert!(matches!(result, Err(Error::InternalCommunicationCanceled)));
    }
}

#[test]
fn a_cancellation_is_heard_in_every_state() {
    for state in STATES {
        let (next, result) = state.step(ImageEvent::Cancel);
        assert_eq!(next, ImageState::Canceled);
        assert!(result.is_ok());
        assert_eq!(state.kills_loader(ImageEvent::Cancel), state != ImageState::Canceled);
        for event in EVENTS {
            if event != ImageEvent::Cancel {
                assert!(!state.kills_loader(event));
                let (after, result) = next.step(event);
                assert_eq!(after, ImageState::Canceled);
                assert!(matches!(result, Err(Error::InternalCommunicationCanceled)));
            }
        }
    }
}

#[test]
fn one_request_at_a_time() {
    let (state, _) = ImageState::Ready.step(ImageEvent::FrameRequest);
    let (state, result) = state.step(ImageEvent::FrameRequest);
    assert_eq!(state, ImageState::Decoding);
    assert!(matches!(result, Err(Error::InternalCommunicationCanceled)));
    let (state, result) = ImageState::Initializing.step(ImageEvent::FrameRequest);
    assert_eq!(state, ImageState::Initializing);
    assert!(result.is_err());
}

#[test]
fn an_image_keeps_what_was_learned_when_it_was_opened() {
    let mut info = ImageInfo::new(2, 2);
    info.details.format_name = Some(s("PNG"));
    let loader = Loader::new(s("/home/me/a.png"));
    let mut image = Image::new(loader, info, s("image/png"), SandboxMechanism::Bwrap);
    assert_eq!(image.info().width, 2);
    assert_eq!(image.info().height, 2);
    assert_eq!(image.format_name(), Some(s("PNG")));
    assert_eq!(image.mime_type(), "image/png");
    assert_eq!(image.file(), "/home/me/a.png");
    assert_eq!(image.active_sandbox_mechanism(), SandboxMechanism::Bwrap);
    assert_eq!(image.state, ImageState::Ready);
    assert!(image.applies_transformations());
    image.info.details.transformations_applied = true;
    assert!(!image.applies_transformations());
    image.info.details.transformations_applied = false;
    image.loader.apply_transformations(false);
    assert!(!image.applies_transformations());
    let request = image.next_frame();
    assert_eq!((request.scale, request.clip), (None, None));
    let request = image.specific_frame(FrameRequest::new().scale(10, 20).clip(1, 2, 3, 4));
    assert_eq!(request.scale, Some((10, 20)));
    assert_eq!(request.clip, Some((1, 2, 3, 4)));
    assert!(image.record(ImageEvent::FrameRequest).is_ok());
    assert!(image.record(ImageEvent::FrameRequest).is_err());
    assert!(image.record(ImageEvent::FrameReply).is_ok());
    assert_eq!(image.state, ImageState::Ready);
    assert!(image.record(ImageEvent::Cancel).is_ok());
    assert!(matches!(image.record(ImageEvent::FrameRequest), Err(Error::InternalCommunicationCanceled)));
    assert_eq!(image.state, ImageState::Canceled);
    assert_eq!(image.info().width, 2);
}
