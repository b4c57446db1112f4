//! What the host decides while it starts a loader, opens an image in it and
//! seals the memory that came back.

use vstd::prelude::*;
use crate::dbus::{BinaryData, Frame, ImageInfo};
use crate::error::{Error, RemoteError};

verus! {

/// What can happen first after a loader was started.
#[derive(Debug)]
pub enum StartupEvent {
    /// The connection to the loader stands.
    Connected,
    /// The operation was cancelled.
    Cancelled,
    /// The loader has ended; `status` is its exit code, where it has one.
    Exited { status: Option<i32> },
    /// Waiting for the loader failed.
    WaitFailed { err: String },
}

/// How the start of a loader ends, and whether the loader is to be killed.
#[derive(Debug)]
pub struct StartupOutcome {
    pub result: Result<(), Error>,
    pub kill_loader: bool,
}

/// How the start of a loader ends after `event`. A loader that ends before
/// the connection stands is reported with its status and command line; a
/// cancelled start kills the loader.
pub fn startup_outcome(event: StartupEvent, command: &str) -> (outcome: StartupOutcome)
    ensures
        outcome.kill_loader == (event is Cancelled),
        match event {
            StartupEvent::Connected => outcome.result is Ok,
            StartupEvent::Cancelled => outcome.result is Err
                && outcome.result->Err_0 is InternalCommunicationCanceled,
            StartupEvent::Exited { status } => outcome.result is Err && (
            outcome.result->Err_0 matches Error::PrematureExit { status: s, cmd } && s == status
                && cmd@ == command@),
            StartupEvent::WaitFailed { err } => outcome.result is Err && (
            outcome.result->Err_0 matches Error::StdIoError { err: e, info } && e@ == err@ && info@
                == command@),
        },
{
    match event {
        StartupEvent::Connected => StartupOutcome { result: Ok(()), kill_loader: false },
        StartupEvent::Cancelled => StartupOutcome {
            result: Err(Error::InternalCommunicationCanceled),
            kill_loader: true,
        },
        StartupEvent::Exited { status } => StartupOutcome {
            result: Err(Error::PrematureExit { status, cmd: String::from_str(command) }),
            kill_loader: false,
        },
        StartupEvent::WaitFailed { err } => StartupOutcome {
            result: Err(Error::StdIoError { err, info: String::from_str(command) }),
            kill_loader: false,
        },
    }
}

/// What can happen first after the image was handed to the loader.
#[derive(Debug)]
pub enum InitEvent {
    /// The loader has answered.
    Reply(Result<ImageInfo, RemoteError>),
    /// Reading the image file has failed.
    ReaderFailed(Error),
    /// The operation was cancelled.
    Cancelled,
}

/// The image information, or the error with which opening the image ends.
pub fn init_outcome(event: InitEvent) -> (r: Result<ImageInfo, Error>)
    ensures
        match event {
            InitEvent::Reply(Ok(info)) => r == Ok::<ImageInfo, Error>(info),
            InitEvent::Reply(Err(err)) => r == Err::<ImageInfo, Error>(Error::RemoteError(err)),
            InitEvent::ReaderFailed(err) => r == Err::<ImageInfo, Error>(err),
            InitEvent::Cancelled => r == Err::<ImageInfo, Error>(
                Error::InternalCommunicationCanceled,
            ),
        },
{
    match event {
        InitEvent::Reply(Ok(info)) => Ok(info),
        InitEvent::Reply(Err(err)) => Err(Error::RemoteError(err)),
        InitEvent::ReaderFailed(err) => Err(err),
        InitEvent::Cancelled => Err(Error::InternalCommunicationCanceled),
    }
}

/// The segments of an option, as a list.
pub open spec fn segment_list(segment: Option<BinaryData>) -> Seq<BinaryData> {
    match segment {
        Some(segment) => seq![segment],
        None => Seq::empty(),
    }
}

/// The memory segments of the image information that the host seals: the
/// EXIF data and then the XMP data, where the image has them.
pub fn info_segments(info: &ImageInfo) -> (segments: Vec<BinaryData>)
    ensures
        segments@ == segment_list(info.details.exif) + segment_list(info.details.xmp),
{
    let mut segments: Vec<BinaryData> = Vec::new();
    if let Some(exif) = info.details.exif {
        segments.push(exif);
    }
    if let Some(xmp) = info.details.xmp {
        segments.push(xmp);
    }
    assert(segments@ =~= segment_list(info.details.exif) + segment_list(info.details.xmp));
    segments
}

/// The memory segment of a frame that the host seals before it looks at the
/// pixels: the colour profile, where the frame has one.
pub fn frame_segments(frame: &Frame) -> (segments: Vec<BinaryData>)
    ensures
        segments@ == segment_list(frame.details.iccp),
{
    let mut segments: Vec<BinaryData> = Vec::new();
    if let Some(iccp) = frame.details.iccp {
        segments.push(iccp);
    }
    segments
}

/// The last attempt to seal a segment after which another one is made.
pub const SEAL_RETRIES: u32 = 10000;

/// What follows an attempt to seal a segment.
#[derive(Debug)]
pub enum SealStep {
    /// The segment is sealed.
    Done,
    /// The attempt is made again.
    Retry,
    /// Sealing has failed for good.
    Failed(Error),
}

/// What follows the attempt with the number `attempt`, counted from zero,
/// which ended with `outcome`. A failed attempt is repeated, since the
/// segment may be busy for a moment, but not for ever: the failure of an
/// attempt after number 10000 is the failure of sealing.
pub fn seal_step(attempt: u32, outcome: Result<(), String>) -> (step: SealStep)
    ensures
        outcome is Ok ==> step is Done,
        outcome is Err && attempt <= SEAL_RETRIES ==> step is Retry,
        outcome is Err && attempt > SEAL_RETRIES ==> (step matches SealStep::Failed(
            Error::MemFd(text),
        ) && text@ == outcome->Err_0@),
{
    match outcome {
        Ok(()) => SealStep::Done,
        Err(err) => {
            if attempt > SEAL_RETRIES {
                SealStep::Failed(Error::MemFd(err))
            } else {
                SealStep::Retry
            }
        },
    }
}

/// The seals that are put on a segment, all at once: it cannot shrink, grow
/// or be written any more, and no seal can be added.
#[derive(Debug, Clone, Copy, PartialEq, Eq, Structural)]
pub enum FileSeal {
    SealShrink,
    SealGrow,
    SealWrite,
    SealSeal,
}

pub fn all_seals() -> (seals: Vec<FileSeal>)
    ensures
        seals@ == seq![
            FileSeal::SealShrink,
            FileSeal::SealGrow,
            FileSeal::SealWrite,
            FileSeal::SealSeal,
        ],
{
    let mut seals: Vec<FileSeal> = Vec::new();
    seals.push(FileSeal::SealShrink);
    seals.push(FileSeal::SealGrow);
    seals.push(FileSeal::SealWrite);
    seals.push(FileSeal::SealSeal);
    seals
}

} // verus!
