//! What an application uses: the choice of the sandbox, the settings of a
//! load, the request for a frame, and the frame that comes back.

use vstd::prelude::*;
use core::time::Duration;
use crate::config::{Config, ImageDecoderConfig, MimeType};
use crate::dbus::{FrameDetails, ImageInfo, InitRequest, InitializationDetails};
use crate::error::Error;
use crate::memory_format::MemoryFormat;
use crate::pipeline::{frame_check, lemma_checked_frame_fits, validate_frame};
use crate::sandbox::Sandbox;

verus! {

/// How a loader is kept from the rest of the system.
#[derive(Debug, Copy, Clone, PartialEq, Eq, Structural)]
pub enum SandboxMechanism {
    /// A sandbox of the loader's own, made of namespaces.
    Bwrap,
    /// The loader is started through the portal of the host's container.
    FlatpakSpawn,
    NotSandboxed,
}

/// The choice that an application makes; `Auto` leaves it to the host.
#[derive(Debug, Copy, Clone, PartialEq, Eq, Structural)]
pub enum SandboxSelector {
    Auto,
    Bwrap,
    FlatpakSpawn,
    NotSandboxed,
}

impl Default for SandboxSelector {
    fn default() -> (selector: Self)
        ensures
            selector == SandboxSelector::Auto,
    {
        SandboxSelector::Auto
    }
}

impl SandboxMechanism {
    /// The mechanism for a host that runs inside a container (`flatpaked`)
    /// or outside of one.
    pub open spec fn detected(flatpaked: bool) -> SandboxMechanism {
        if flatpaked {
            SandboxMechanism::FlatpakSpawn
        } else {
            SandboxMechanism::Bwrap
        }
    }

    /// The mechanism that fits the host. `flatpaked` says whether the marker
    /// file of the container is there.
    pub fn detect(flatpaked: bool) -> (mechanism: Self)
        ensures
            mechanism == Self::detected(flatpaked),
            mechanism != SandboxMechanism::NotSandboxed,
    {
        if flatpaked {
            SandboxMechanism::FlatpakSpawn
        } else {
            SandboxMechanism::Bwrap
        }
    }

    pub fn into_selector(self) -> (selector: SandboxSelector)
        ensures
            selector == match self {
                SandboxMechanism::Bwrap => SandboxSelector::Bwrap,
                SandboxMechanism::FlatpakSpawn => SandboxSelector::FlatpakSpawn,
                SandboxMechanism::NotSandboxed => SandboxSelector::NotSandboxed,
            },
            selector != SandboxSelector::Auto,
    {
        match self {
            SandboxMechanism::Bwrap => SandboxSelector::Bwrap,
            SandboxMechanism::FlatpakSpawn => SandboxSelector::FlatpakSpawn,
            SandboxMechanism::NotSandboxed => SandboxSelector::NotSandboxed,
        }
    }
}

impl SandboxSelector {
    /// The number of the selector in interfaces to other languages.
    pub open spec fn number_of(self) -> int {
        match self {
            SandboxSelector::Auto => 0,
            SandboxSelector::Bwrap => 1,
            SandboxSelector::FlatpakSpawn => 2,
            SandboxSelector::NotSandboxed => 3,
        }
    }

    pub fn number(self) -> (number: i32)
        ensures
            number == self.number_of(),
    {
        match self {
            SandboxSelector::Auto => 0,
            SandboxSelector::Bwrap => 1,
            SandboxSelector::FlatpakSpawn => 2,
            SandboxSelector::NotSandboxed => 3,
        }
    }

    /// The selector with this number, if there is one.
    pub fn from_number(number: i32) -> (selector: Option<SandboxSelector>)
        ensures
            selector is Some <==> 0 <= number <= 3,
            selector is Some ==> selector->0.number_of() == number,
    {
        match number {
            0 => Some(SandboxSelector::Auto),
            1 => Some(SandboxSelector::Bwrap),
            2 => Some(SandboxSelector::FlatpakSpawn),
            3 => Some(SandboxSelector::NotSandboxed),
            _ => None,
        }
    }

    /// The mechanism that the selector stands for on a host that is or is
    /// not inside a container.
    pub open spec fn mechanism(self, flatpaked: bool) -> SandboxMechanism {
        match self {
            SandboxSelector::Auto => SandboxMechanism::detected(flatpaked),
            SandboxSelector::Bwrap => SandboxMechanism::Bwrap,
            SandboxSelector::FlatpakSpawn => SandboxMechanism::FlatpakSpawn,
            SandboxSelector::NotSandboxed => SandboxMechanism::NotSandboxed,
        }
    }

    /// Whether the choice depends on where the host runs.
    pub fn needs_detection(self) -> (needed: bool)
        ensures
            needed == (self == SandboxSelector::Auto),
    {
        match self {
            SandboxSelector::Auto => true,
            _ => false,
        }
    }

    /// The mechanism to use. An explicit choice stands; `Auto` never turns
    /// the sandbox off.
    pub fn determine_sandbox_mechanism(self, flatpaked: bool) -> (mechanism: SandboxMechanism)
        ensures
            mechanism == self.mechanism(flatpaked),
            self == SandboxSelector::Auto ==> mechanism != SandboxMechanism::NotSandboxed,
    {
        match self {
            SandboxSelector::Auto => SandboxMechanism::detect(flatpaked),
            SandboxSelector::Bwrap => SandboxMechanism::Bwrap,
            SandboxSelector::FlatpakSpawn => SandboxMechanism::FlatpakSpawn,
            SandboxSelector::NotSandboxed => SandboxMechanism::NotSandboxed,
        }
    }
}

/// The settings of a load.
#[derive(Debug, Clone)]
pub struct Loader {
    /// Name of the file to load.
    pub file: String,
    pub apply_transformations: bool,
    pub sandbox_mechanism: SandboxSelector,
}

/// What it takes to start the loader for an image.
#[derive(Debug)]
pub struct LoadPlan {
    pub mime_type: MimeType,
    pub sandbox_mechanism: SandboxMechanism,
    /// The sandbox, with the directory of the image added where the loader
    /// is to see it.
    pub sandbox: Sandbox,
    /// The directory of the image, where the loader is to see it.
    pub base_dir: Option<String>,
}

impl Loader {
    /// A load of `file` with the defaults: the sandbox is chosen by the
    /// host, and transformations are applied.
    pub fn new(file: String) -> (loader: Self)
        ensures
            loader.file@ == file@,
            loader.apply_transformations,
            loader.sandbox_mechanism == SandboxSelector::Auto,
    {
        Loader { file, apply_transformations: true, sandbox_mechanism: SandboxSelector::default() }
    }

    /// Sets the sandbox mechanism; `None` leaves the choice to the host,
    /// which never turns the sandbox off by itself.
    pub fn sandbox_mechanism(&mut self, sandbox_mechanism: Option<SandboxMechanism>) -> (loader:
        &mut Self)
        ensures
            loader.sandbox_mechanism == match sandbox_mechanism {
                Some(SandboxMechanism::Bwrap) => SandboxSelector::Bwrap,
                Some(SandboxMechanism::FlatpakSpawn) => SandboxSelector::FlatpakSpawn,
                Some(SandboxMechanism::NotSandboxed) => SandboxSelector::NotSandboxed,
                None => SandboxSelector::Auto,
            },
            loader.apply_transformations == old(self).apply_transformations,
            loader.file == old(self).file,
            *final(self) == *final(loader),
    {
        self.sandbox_mechanism = match sandbox_mechanism {
            Some(mechanism) => mechanism.into_selector(),
            None => SandboxSelector::Auto,
        };
        self
    }

    /// Sets whether transformations like the orientation of the image are
    /// applied to the pixels.
    pub fn apply_transformations(&mut self, apply_transformations: bool) -> (loader: &mut Self)
        ensures
            loader.apply_transformations == apply_transformations,
            loader.sandbox_mechanism == old(self).sandbox_mechanism,
            loader.file == old(self).file,
            *final(self) == *final(loader),
    {
        self.apply_transformations = apply_transformations;
        self
    }

    /// What it takes to start the loader for an image of the media type
    /// `mime_type`: the loader that the registry names, in the chosen
    /// sandbox. `parent_dir` is the directory of the image, where it has
    /// one; the loader gets to see it where its manifest says so. Without a
    /// loader for the media type the result is the error that names it.
    pub fn plan(
        &self,
        config: &Config,
        mime_type: &MimeType,
        flatpaked: bool,
        parent_dir: Option<String>,
    ) -> (r: Result<LoadPlan, Error>)
        ensures
            r is Ok <==> config@.contains_key(mime_type@),
            r is Err ==> (r->Err_0 matches Error::UnknownImageFormat(name) && name@ == mime_type@),
            r is Ok ==> {
                let plan = r->Ok_0;
                let loader = config@[mime_type@];
                let shown = loader.expose_base_dir && parent_dir is Some;
                &&& plan.mime_type@ == mime_type@
                &&& plan.sandbox_mechanism == self.sandbox_mechanism.mechanism(flatpaked)
                &&& plan.sandbox.mechanism() == plan.sandbox_mechanism
                &&& plan.sandbox.command_view() == loader.exec_path@
                &&& plan.sandbox.extra_binds() == if shown {
                    seq![parent_dir->0@]
                } else {
                    Seq::<Seq<char>>::empty()
                }
                &&& plan.base_dir is Some <==> shown
                &&& shown ==> plan.base_dir->0@ == parent_dir->0@
            },
    {
        let loader_config = match config.get(mime_type) {
            Ok(loader_config) => loader_config,
            Err(err) => {
                return Err(err);
            },
        };
        let sandbox_mechanism = self.sandbox_mechanism.determine_sandbox_mechanism(flatpaked);
        let mut sandbox = Sandbox::new(sandbox_mechanism, loader_config.exec_path.clone());
        let mut base_dir: Option<String> = None;
        if loader_config.expose_base_dir {
            if let Some(dir) = parent_dir {
                sandbox.add_ro_bind(dir.clone());
                base_dir = Some(dir);
            }
        }
        Ok(LoadPlan { mime_type: mime_type.clone(), sandbox_mechanism, sandbox, base_dir })
    }
}

impl LoadPlan {
    /// The request that opens the image in the loader. `fd` is the
    /// descriptor from which the loader reads the image data.
    pub fn init_request(&self, fd: i32) -> (request: InitRequest)
        ensures
            request.fd == fd,
            request.mime_type@ == self.mime_type@,
            request.details.base_dir is Some <==> self.base_dir is Some,
            self.base_dir is Some ==> request.details.base_dir->0@ == self.base_dir->0@,
    {
        let mut details = InitializationDetails::default();
        details.base_dir = match &self.base_dir {
            Some(dir) => Some(dir.clone()),
            None => None,
        };
        InitRequest { fd, mime_type: self.mime_type.clone(), details }
    }
}

/// What a look at the content or the name of a file says about its type.
#[derive(Debug, Clone)]
pub struct ContentGuess {
    /// The content type in the system's own terms.
    pub content_type: String,
    /// The media type for that content type, where there is one.
    pub mime_type: Option<String>,
    /// Whether the guess is an uncertain one.
    pub unsure: bool,
}

impl ContentGuess {
    /// Whether the name of the file is to be asked as well: the guess is
    /// uncertain, or it is TIFF, which several raw formats look like, or
    /// XML, which SVG is taken for.
    pub open spec fn wants_name(self) -> bool {
        self.unsure || (self.mime_type is Some && (self.mime_type->0@ == "image/tiff"@
            || self.mime_type->0@ == "application/xml"@))
    }

    /// The media type of the guess, or the error that names the content
    /// type for which there is none.
    pub open spec fn outcome(self, r: Result<String, Error>) -> bool {
        match self.mime_type {
            Some(mime_type) => r is Ok && r->Ok_0@ == mime_type@,
            None => r is Err && (r->Err_0 matches Error::UnknownImageFormat(name) && name@
                == self.content_type@),
        }
    }

    pub fn needs_filename_hint(&self) -> (needed: bool)
        ensures
            needed == self.wants_name(),
    {
        if self.unsure {
            return true;
        }
        match &self.mime_type {
            Some(mime_type) => {
                let tiff = String::from_str("image/tiff");
                let xml = String::from_str("application/xml");
                *mime_type == tiff || *mime_type == xml
            },
            None => false,
        }
    }

    fn into_mime_type(self) -> (r: Result<String, Error>)
        ensures
            self.outcome(r),
    {
        match self.mime_type {
            Some(mime_type) => Ok(mime_type),
            None => Err(Error::UnknownImageFormat(self.content_type)),
        }
    }
}

/// The media type of an image. `by_content` is the guess from the first
/// bytes of the file. `by_name` is the guess that also knows the name of the
/// file; it is `None` for a file without a name. Where the name is to be
/// asked and there is one, the guess with the name decides, else the guess
/// from the content.
pub fn guess_mime_type(by_content: ContentGuess, by_name: Option<ContentGuess>) -> (r: Result<
    String,
    Error,
>)
    ensures
        by_content.wants_name() && by_name is Some ==> by_name->0.outcome(r),
        !(by_content.wants_name() && by_name is Some) ==> by_content.outcome(r),
{
    if by_content.needs_filename_hint() {
        if let Some(by_name) = by_name {
            return by_name.into_mime_type();
        }
    }
    by_content.into_mime_type()
}

/// Request for a specific frame. A loader may ignore parts of it.
#[derive(Debug)]
#[must_use]
pub struct FrameRequest {
    pub request: crate::dbus::FrameRequest,
}

impl Default for FrameRequest {
    fn default() -> (request: Self)
        ensures
            request.request.scale is None,
            request.request.clip is None,
    {
        FrameRequest { request: crate::dbus::FrameRequest::default() }
    }
}

impl FrameRequest {
    /// The request for the next frame in its own size.
    pub fn new() -> (request: Self)
        ensures
            request.request.scale is None,
            request.request.clip is None,
    {
        FrameRequest::default()
    }

    /// Asks for the image scaled to this width and height.
    pub fn scale(self, width: u32, height: u32) -> (request: Self)
        ensures
            request.request.scale == Some((width, height)),
            request.request.clip == self.request.clip,
    {
        let mut request = self;
        request.request.scale = Some((width, height));
        request
    }

    /// Asks for this part of the image only.
    pub fn clip(self, x: u32, y: u32, width: u32, height: u32) -> (request: Self)
        ensures
            request.request.clip == Some((x, y, width, height)),
            request.request.scale == self.request.scale,
    {
        let mut request = self;
        request.request.clip = Some((x, y, width, height));
        request
    }
}

/// What a frame of the host is: its pixels and their layout.
pub struct FrameView {
    pub buffer: Seq<u8>,
    pub width: u32,
    pub height: u32,
    pub stride: u32,
    pub memory_format: MemoryFormat,
    pub delay: Option<Duration>,
    pub details: FrameDetails,
}

impl FrameView {
    /// The rows of the frame fit its buffer, a row holds the pixels of its
    /// width, and the frame has pixels.
    pub open spec fn well_formed(self) -> bool {
        &&& self.stride >= self.width * self.memory_format.bytes_per_pixel()
        &&& self.buffer.len() >= self.stride * self.height
        &&& self.width >= 1
        &&& self.height >= 1
    }
}

/// A frame of an image as the application gets it; often the whole image.
#[derive(Debug)]
pub struct Frame {
    buffer: Vec<u8>,
    width: u32,
    height: u32,
    stride: u32,
    memory_format: MemoryFormat,
    delay: Option<Duration>,
    details: FrameDetails,
}

impl View for Frame {
    type V = FrameView;

    closed spec fn view(&self) -> FrameView {
        FrameView {
            buffer: self.buffer@,
            width: self.width,
            height: self.height,
            stride: self.stride,
            memory_format: self.memory_format,
            delay: self.delay,
            details: self.details,
        }
    }
}

impl Clone for Frame {
    fn clone(&self) -> (copy: Self)
        ensures
            copy@.buffer == self@.buffer,
            copy@.width == self@.width,
            copy@.height == self@.height,
            copy@.stride == self@.stride,
            copy@.memory_format == self@.memory_format,
            copy@.delay == self@.delay,
            copy@.details.same_as(self@.details),
    {
        proof {
            use_type_invariant(self);
        }
        Frame {
            buffer: self.buffer.clone(),
            width: self.width,
            height: self.height,
            stride: self.stride,
            memory_format: self.memory_format,
            delay: self.delay,
            details: self.details.clone(),
        }
    }
}

impl Frame {
    #[verifier::type_invariant]
    spec fn well_formed(self) -> bool {
        self@.well_formed()
    }

    /// The frame of the pixels in `buffer` that `frame` describes, or the
    /// error of the check that `frame` and the length of `buffer` fail.
    pub fn new(buffer: Vec<u8>, frame: crate::dbus::Frame) -> (r: Result<Self, Error>)
        ensures
            r is Ok <==> frame_check(frame, buffer@.len() as usize) is Ok,
            r is Err ==> Err::<(), Error>(r->Err_0) == frame_check(frame, buffer@.len() as usize),
            r is Ok ==> r->Ok_0@ == (FrameView {
                buffer: buffer@,
                width: frame.width,
                height: frame.height,
                stride: frame.stride,
                memory_format: frame.memory_format,
                delay: frame.delay,
                details: frame.details,
            }),
            r is Ok ==> r->Ok_0@.well_formed(),
    {
        match validate_frame(&frame, buffer.len()) {
            Ok(()) => {},
            Err(err) => {
                return Err(err);
            },
        }
        proof {
            lemma_checked_frame_fits(frame, buffer@.len() as usize);
        }
        Ok(
            Frame {
                buffer,
                width: frame.width,
                height: frame.height,
                stride: frame.stride,
                memory_format: frame.memory_format,
                delay: frame.delay,
                details: frame.details,
            },
        )
    }

    /// The pixels. They are at least stride times height bytes.
    pub fn buf_slice(&self) -> (buf: &[u8])
        ensures
            buf@ == self@.buffer,
            self@.well_formed(),
    {
        proof {
            use_type_invariant(self);
        }
        self.buffer.as_slice()
    }

    /// A copy of the pixels.
    pub fn buf_bytes(&self) -> (buf: Vec<u8>)
        ensures
            buf@ == self@.buffer,
    {
        self.buffer.clone()
    }

    /// Width in pixels; at least 1.
    pub fn width(&self) -> (width: u32)
        ensures
            width == self@.width,
            width >= 1,
    {
        proof {
            use_type_invariant(self);
        }
        self.width
    }

    /// Height in pixels; at least 1.
    pub fn height(&self) -> (height: u32)
        ensures
            height == self@.height,
            height >= 1,
    {
        proof {
            use_type_invariant(self);
        }
        self.height
    }

    /// Distance between the starts of two rows in bytes; at least the bytes
    /// of the pixels of a row.
    pub fn stride(&self) -> (stride: u32)
        ensures
            stride == self@.stride,
            stride >= self@.width * self@.memory_format.bytes_per_pixel(),
    {
        proof {
            use_type_invariant(self);
        }
        self.stride
    }

    pub fn memory_format(&self) -> (memory_format: MemoryFormat)
        ensures
            memory_format == self@.memory_format,
    {
        self.memory_format
    }

    /// Time to show the frame in an animation; `None` for a still image.
    pub fn delay(&self) -> (delay: Option<Duration>)
        ensures
            delay == self@.delay,
    {
        self.delay
    }

    pub fn details(&self) -> (details: &FrameDetails)
        ensures
            *details == self@.details,
    {
        &self.details
    }
}

/// The media types for which the registry has a loader.
pub fn supported_mime_types(config: &Config) -> (types: Vec<MimeType>)
    ensures
        forall|name: Seq<char>|
            config@.contains_key(name) <==> exists|i: int|
                0 <= i < types@.len() && (#[trigger] types@[i])@ == name,
        forall|i: int, j: int|
            0 <= i < j < types@.len() ==> (#[trigger] types@[i])@ != (#[trigger] types@[j])@,
{
    config.mime_types()
}

/// Where an image stands between the host and its loader.
#[derive(Debug, Clone, Copy, PartialEq, Eq, Structural)]
pub enum ImageState {
    /// Nothing was asked of the loader yet.
    Idle,
    /// The image is being opened.
    Initializing,
    /// The image is open, and no frame is being decoded.
    Ready,
    /// A frame is being decoded.
    Decoding,
    /// An operation has failed.
    Faulted,
    /// The operations on the image were cancelled.
    Canceled,
}

/// What happens to an image.
#[derive(Debug, Clone, Copy, PartialEq, Eq, Structural)]
pub enum ImageEvent {
    /// The application asks for the image to be loaded.
    Load,
    /// The loader has opened the image.
    InitReply,
    /// The application asks for a frame.
    FrameRequest,
    /// The loader has returned a frame.
    FrameReply,
    /// The operation that is under way has failed.
    Failure,
    /// The application cancels, or lets go of the image.
    Cancel,
}

impl ImageState {
    /// Whether the event is one that the state allows.
    pub open spec fn accepts(self, event: ImageEvent) -> bool {
        match (self, event) {
            (_, ImageEvent::Cancel) => true,
            (ImageState::Idle, ImageEvent::Load) => true,
            (ImageState::Initializing, ImageEvent::InitReply) => true,
            (ImageState::Initializing, ImageEvent::Failure) => true,
            (ImageState::Ready, ImageEvent::FrameRequest) => true,
            (ImageState::Decoding, ImageEvent::FrameReply) => true,
            (ImageState::Decoding, ImageEvent::Failure) => true,
            _ => false,
        }
    }

    /// The state after the event. An event that the state does not allow
    /// leaves it as it is.
    pub open spec fn after(self, event: ImageEvent) -> ImageState {
        match (self, event) {
            (_, ImageEvent::Cancel) => ImageState::Canceled,
            (ImageState::Idle, ImageEvent::Load) => ImageState::Initializing,
            (ImageState::Initializing, ImageEvent::InitReply) => ImageState::Ready,
            (ImageState::Initializing, ImageEvent::Failure) => ImageState::Faulted,
            (ImageState::Ready, ImageEvent::FrameRequest) => ImageState::Decoding,
            (ImageState::Decoding, ImageEvent::FrameReply) => ImageState::Ready,
            (ImageState::Decoding, ImageEvent::Failure) => ImageState::Faulted,
            _ => self,
        }
    }

    /// Whether the loader is to be killed after the event in this state:
    /// after a cancellation, unless it was killed by an earlier one.
    pub open spec fn kills(self, event: ImageEvent) -> bool {
        event == ImageEvent::Cancel && self != ImageState::Canceled
    }

    /// The state after the event, and whether the event was allowed. An
    /// event that is not allowed is answered with the error of a cancelled
    /// communication: one request is served at a time, and none after a
    /// failure or a cancellation.
    pub fn step(self, event: ImageEvent) -> (next: (ImageState, Result<(), Error>))
        ensures
            next.0 == self.after(event),
            next.1 is Ok <==> self.accepts(event),
            next.1 is Err ==> next.1->Err_0 is InternalCommunicationCanceled,
    {
        match (self, event) {
            (_, ImageEvent::Cancel) => (ImageState::Canceled, Ok(())),
            (ImageState::Idle, ImageEvent::Load) => (ImageState::Initializing, Ok(())),
            (ImageState::Initializing, ImageEvent::InitReply) => (ImageState::Ready, Ok(())),
            (ImageState::Initializing, ImageEvent::Failure) => (ImageState::Faulted, Ok(())),
            (ImageState::Ready, ImageEvent::FrameRequest) => (ImageState::Decoding, Ok(())),
            (ImageState::Decoding, ImageEvent::FrameReply) => (ImageState::Ready, Ok(())),
            (ImageState::Decoding, ImageEvent::Failure) => (ImageState::Faulted, Ok(())),
            _ => (self, Err(Error::InternalCommunicationCanceled)),
        }
    }

    /// Whether the loader is to be killed after the event.
    pub fn kills_loader(self, event: ImageEvent) -> (kill: bool)
        ensures
            kill == self.kills(event),
    {
        match (self, event) {
            (ImageState::Canceled, _) => false,
            (_, ImageEvent::Cancel) => true,
            _ => false,
        }
    }
}

/// The state after a run of events.
pub open spec fn after_all(state: ImageState, events: Seq<ImageEvent>) -> ImageState
    decreases events.len(),
{
    if events.len() == 0 {
        state
    } else {
        after_all(state, events.drop_last()).after(events.last())
    }
}

/// A cancellation is allowed in every state, leads to the cancelled state,
/// and asks for the loader to be killed where it was not cancelled before.
pub proof fn lemma_cancel_reaches(state: ImageState)
    ensures
        state.accepts(ImageEvent::Cancel),
        state.after(ImageEvent::Cancel) == ImageState::Canceled,
        state != ImageState::Canceled ==> state.kills(ImageEvent::Cancel),
{
}

/// After a cancellation the image stays cancelled whatever happens, and
/// nothing but another cancellation is allowed.
pub proof fn lemma_canceled_stays(events: Seq<ImageEvent>)
    ensures
        after_all(ImageState::Canceled, events) == ImageState::Canceled,
        forall|event: ImageEvent|
            event != ImageEvent::Cancel ==> !(#[trigger] ImageState::Canceled.accepts(event)),
    decreases events.len(),
{
    if events.len() > 0 {
        lemma_canceled_stays(events.drop_last());
    }
}

/// After a failure no operation is allowed any more: whatever happens, the
/// image is faulted or cancelled, and in both states every event but a
/// cancellation is refused.
pub proof fn lemma_faulted_stays(events: Seq<ImageEvent>)
    ensures
        ({
            let end = after_all(ImageState::Faulted, events);
            &&& end == ImageState::Faulted || end == ImageState::Canceled
            &&& forall|event: ImageEvent|
                event != ImageEvent::Cancel ==> !(#[trigger] end.accepts(event))
        }),
    decreases events.len(),
{
    if events.len() > 0 {
        lemma_faulted_stays(events.drop_last());
    }
}

/// A frame is never asked for while another request is under way: a request
/// for a frame is allowed in the ready state only, and leaves it until the
/// reply is there.
pub proof fn lemma_requests_are_serial(state: ImageState)
    ensures
        state.accepts(ImageEvent::FrameRequest) <==> state == ImageState::Ready,
        state.accepts(ImageEvent::FrameRequest) ==> !state.after(ImageEvent::FrameRequest).accepts(
            ImageEvent::FrameRequest,
        ),
{
}

/// An image that was opened in a loader: what is known of it, and where it
/// stands.
#[derive(Debug)]
pub struct Image {
    pub loader: Loader,
    pub info: ImageInfo,
    pub mime_type: MimeType,
    pub active_sandbox_mechanism: SandboxMechanism,
    pub state: ImageState,
}

impl Image {
    /// The image after the loader has opened it.
    pub fn new(
        loader: Loader,
        info: ImageInfo,
        mime_type: MimeType,
        active_sandbox_mechanism: SandboxMechanism,
    ) -> (image: Self)
        ensures
            image.loader == loader,
            image.info == info,
            image.mime_type == mime_type,
            image.active_sandbox_mechanism == active_sandbox_mechanism,
            image.state == ImageState::Ready,
    {
        Image { loader, info, mime_type, active_sandbox_mechanism, state: ImageState::Ready }
    }

    /// What was learned of the image when it was opened.
    pub fn info(&self) -> (info: &ImageInfo)
        ensures
            *info == self.info,
    {
        &self.info
    }

    /// The media type that was found for the file.
    pub fn mime_type(&self) -> (mime_type: MimeType)
        ensures
            mime_type@ == self.mime_type@,
    {
        self.mime_type.clone()
    }

    /// The name of the image format, in words.
    pub fn format_name(&self) -> (name: Option<String>)
        ensures
            name is Some <==> self.info.details.format_name is Some,
            name is Some ==> name->0@ == self.info.details.format_name->0@,
    {
        match &self.info.details.format_name {
            Some(name) => Some(name.clone()),
            None => None,
        }
    }

    /// The name of the file that the image was loaded from.
    pub fn file(&self) -> (file: String)
        ensures
            file@ == self.loader.file@,
    {
        self.loader.file.clone()
    }

    pub fn active_sandbox_mechanism(&self) -> (mechanism: SandboxMechanism)
        ensures
            mechanism == self.active_sandbox_mechanism,
    {
        self.active_sandbox_mechanism
    }

    /// Whether the host applies the orientation of the image to its pixels:
    /// the application wants transformations, and the loader has not applied
    /// them already.
    pub fn applies_transformations(&self) -> (applies: bool)
        ensures
            applies == (self.loader.apply_transformations
                && !self.info.details.transformations_applied),
    {
        self.loader.apply_transformations && !self.info.details.transformations_applied
    }

    /// Notes what has happened to the image, and says whether it was
    /// allowed. Nothing but the state changes.
    pub fn record(&mut self, event: ImageEvent) -> (r: Result<(), Error>)
        ensures
            final(self).state == old(self).state.after(event),
            r is Ok <==> old(self).state.accepts(event),
            r is Err ==> r->Err_0 is InternalCommunicationCanceled,
            final(self).loader == old(self).loader,
            final(self).info == old(self).info,
            final(self).mime_type == old(self).mime_type,
            final(self).active_sandbox_mechanism == old(self).active_sandbox_mechanism,
    {
        let (state, result) = self.state.step(event);
        self.state = state;
        result
    }

    /// The request for the next frame: the defaults.
    pub fn next_frame(&self) -> (request: crate::dbus::FrameRequest)
        ensures
            request.scale is None,
            request.clip is None,
    {
        crate::dbus::FrameRequest::default()
    }

    /// The request that goes to the loader for a specific frame.
    pub fn specific_frame(&self, frame_request: FrameRequest) -> (request: crate::dbus::FrameRequest)
        ensures
            request == frame_request.request,
    {
        frame_request.request
    }
}

} // verus!
