//! Errors of loaders and of the host.

use vstd::prelude::*;
use crate::memory_format::MemoryFormat;

verus! {

/// A size or a dimension does not fit the integer type that has to hold it.
#[derive(Debug, Clone, Copy, PartialEq, Eq, Structural)]
pub struct DimensionTooLargerError;

/// An error as it crosses from the loader to the host.
#[derive(Debug, Clone)]
#[non_exhaustive]
pub enum RemoteError {
    /// The transport failed; the text is the transport's own.
    ZBus(String),
    LoadingError(String),
    InternalLoaderError(String),
    UnsupportedImageFormat(String),
    ConversionTooLargerError,
    OutOfMemory(String),
}

/// What a `RemoteError` is: its kind and its text as a sequence of characters.
pub enum RemoteErrorView {
    ZBus(Seq<char>),
    LoadingError(Seq<char>),
    InternalLoaderError(Seq<char>),
    UnsupportedImageFormat(Seq<char>),
    ConversionTooLargerError,
    OutOfMemory(Seq<char>),
}

impl View for RemoteError {
    type V = RemoteErrorView;

    open spec fn view(&self) -> RemoteErrorView {
        match *self {
            RemoteError::ZBus(msg) => RemoteErrorView::ZBus(msg@),
            RemoteError::LoadingError(msg) => RemoteErrorView::LoadingError(msg@),
            RemoteError::InternalLoaderError(msg) => RemoteErrorView::InternalLoaderError(msg@),
            RemoteError::UnsupportedImageFormat(msg) => RemoteErrorView::UnsupportedImageFormat(msg@),
            RemoteError::ConversionTooLargerError => RemoteErrorView::ConversionTooLargerError,
            RemoteError::OutOfMemory(msg) => RemoteErrorView::OutOfMemory(msg@),
        }
    }
}

/// An error inside a loader. `location` names the place in the loader's
/// source where the error was first seen.
#[derive(Debug)]
#[non_exhaustive]
pub enum LoaderError {
    LoadingError { err: String, location: String },
    InternalLoaderError { err: String, location: String },
    UnsupportedImageFormat(String),
    ConversionTooLargerError,
    OutOfMemory { location: String },
}

impl LoaderError {
    /// The text that describes the error to a reader.
    pub open spec fn message(self) -> Seq<char> {
        match self {
            LoaderError::LoadingError { err, location } => location@ + ": "@ + err@,
            LoaderError::InternalLoaderError { err, location } => location@ + ": Internal error: "@
                + err@,
            LoaderError::UnsupportedImageFormat(msg) => "Unsupported image format: "@ + msg@,
            LoaderError::ConversionTooLargerError => "Dimension too large for system"@,
            LoaderError::OutOfMemory { location } => location@ + ": Not enough memory available"@,
        }
    }

    /// What the error becomes on its way to the host: the kind stays, and the
    /// place in the source is part of the text only.
    pub open spec fn remote(self) -> RemoteErrorView {
        match self {
            LoaderError::LoadingError { .. } => RemoteErrorView::LoadingError(self.message()),
            LoaderError::InternalLoaderError { .. } => RemoteErrorView::InternalLoaderError(
                self.message(),
            ),
            LoaderError::UnsupportedImageFormat(msg) => RemoteErrorView::UnsupportedImageFormat(msg@),
            LoaderError::ConversionTooLargerError => RemoteErrorView::ConversionTooLargerError,
            LoaderError::OutOfMemory { .. } => RemoteErrorView::OutOfMemory(self.message()),
        }
    }

    /// A failure to load the image, seen at `location`.
    pub fn loading(err: &str, location: &str) -> (e: Self)
        ensures
            e matches LoaderError::LoadingError { err: e_err, location: e_location } && e_err@
                == err@ && e_location@ == location@,
    {
        LoaderError::LoadingError { err: String::from_str(err), location: String::from_str(location) }
    }

    /// The loader ran out of memory at `location`.
    pub fn out_of_memory(location: &str) -> (e: Self)
        ensures
            e matches LoaderError::OutOfMemory { location: e_location } && e_location@ == location@,
    {
        LoaderError::OutOfMemory { location: String::from_str(location) }
    }

    /// The text that describes the error.
    pub fn to_message(&self) -> (msg: String)
        ensures
            msg@ == self.message(),
    {
        match self {
            LoaderError::LoadingError { err, location } => {
                let mut msg = location.clone();
                msg.append(": ");
                msg.append(err.as_str());
                msg
            },
            LoaderError::InternalLoaderError { err, location } => {
                let mut msg = location.clone();
                msg.append(": Internal error: ");
                msg.append(err.as_str());
                msg
            },
            LoaderError::UnsupportedImageFormat(text) => {
                let mut msg = String::from_str("Unsupported image format: ");
                msg.append(text.as_str());
                msg
            },
            LoaderError::ConversionTooLargerError => String::from_str("Dimension too large for system"),
            LoaderError::OutOfMemory { location } => {
                let mut msg = location.clone();
                msg.append(": Not enough memory available");
                msg
            },
        }
    }
}

/// The kind and the text cross to the host; the conversion is stated by the
/// view of its result.
impl From<LoaderError> for RemoteError {
    fn from(err: LoaderError) -> (remote: Self)
        ensures
            remote@ == err.remote(),
    {
        match err {
            LoaderError::LoadingError { .. } => RemoteError::LoadingError(err.to_message()),
            LoaderError::InternalLoaderError { .. } => RemoteError::InternalLoaderError(
                err.to_message(),
            ),
            LoaderError::UnsupportedImageFormat(msg) => RemoteError::UnsupportedImageFormat(msg),
            LoaderError::ConversionTooLargerError => RemoteError::ConversionTooLargerError,
            LoaderError::OutOfMemory { .. } => RemoteError::OutOfMemory(err.to_message()),
        }
    }
}

impl vstd::std_specs::convert::FromSpecImpl<LoaderError> for RemoteError {
    /// Two strings with the same characters need not be the same value, so
    /// `from` states its result by its view and nothing is claimed here.
    open spec fn obeys_from_spec() -> bool {
        false
    }

    open spec fn from_spec(err: LoaderError) -> Self {
        RemoteError::ConversionTooLargerError
    }
}

impl From<DimensionTooLargerError> for LoaderError {
    fn from(err: DimensionTooLargerError) -> (e: Self) {
        LoaderError::ConversionTooLargerError
    }
}

impl vstd::std_specs::convert::FromSpecImpl<DimensionTooLargerError> for LoaderError {
    open spec fn obeys_from_spec() -> bool {
        true
    }

    open spec fn from_spec(err: DimensionTooLargerError) -> Self {
        LoaderError::ConversionTooLargerError
    }
}

impl DimensionTooLargerError {
    pub fn to_message(&self) -> (msg: String)
        ensures
            msg@ == "Dimension too large for system"@,
    {
        String::from_str("Dimension too large for system")
    }
}

impl RemoteError {
    /// The name under which the kind travels, without its prefix. A failure
    /// of the transport has a name of the transport's own.
    pub open spec fn kind_name(self) -> Option<Seq<char>> {
        match self {
            RemoteError::ZBus(_) => None,
            RemoteError::LoadingError(_) => Some("LoadingError"@),
            RemoteError::InternalLoaderError(_) => Some("InternalLoaderError"@),
            RemoteError::UnsupportedImageFormat(_) => Some("UnsupportedImageFormat"@),
            RemoteError::ConversionTooLargerError => Some("ConversionTooLargerError"@),
            RemoteError::OutOfMemory(_) => Some("OutOfMemory"@),
        }
    }

    /// The prefix of every error name of this interface.
    pub open spec fn name_prefix() -> Seq<char> {
        "org.gnome.glycin.Error."@
    }

    /// The full name of the error on the wire: the prefix and the kind.
    pub fn error_name(&self) -> (name: Option<String>)
        ensures
            name is Some <==> self.kind_name() is Some,
            name is Some ==> name->0@ == Self::name_prefix() + self.kind_name()->0,
    {
        let kind = match self {
            RemoteError::ZBus(_) => {
                return None;
            },
            RemoteError::LoadingError(_) => "LoadingError",
            RemoteError::InternalLoaderError(_) => "InternalLoaderError",
            RemoteError::UnsupportedImageFormat(_) => "UnsupportedImageFormat",
            RemoteError::ConversionTooLargerError => "ConversionTooLargerError",
            RemoteError::OutOfMemory(_) => "OutOfMemory",
        };
        let mut name = String::from_str("org.gnome.glycin.Error.");
        name.append(kind);
        Some(name)
    }
}

/// Turns a missing value or a failure into a `LoaderError` that names the
/// place where it was seen.
pub trait GenericContexts<T>: Sized {
    /// The value, where there is one.
    spec fn value(self) -> Option<T>;

    /// The text of the failure, where there is no value.
    spec fn failure(self) -> Seq<char>;

    /// Whether the failure is a lack of memory.
    spec fn is_out_of_memory(self) -> bool;

    /// The value, or a `LoadingError` with the text of the failure; a lack
    /// of memory stays one.
    fn loading_error(self, location: &str) -> (r: Result<T, LoaderError>)
        ensures
            self.value() is Some ==> r == Ok::<T, LoaderError>(self.value()->0),
            self.value() is None && self.is_out_of_memory() ==> r is Err && (
            r->Err_0 matches LoaderError::OutOfMemory { location: l } && l@ == location@),
            self.value() is None && !self.is_out_of_memory() ==> r is Err && (
            r->Err_0 matches LoaderError::LoadingError { err, location: l } && err@
                == self.failure() && l@ == location@),
    ;

    /// The value, or an `InternalLoaderError` with the text of the failure.
    fn internal_error(self, location: &str) -> (r: Result<T, LoaderError>)
        ensures
            self.value() is Some ==> r == Ok::<T, LoaderError>(self.value()->0),
            self.value() is None ==> r is Err && (
            r->Err_0 matches LoaderError::InternalLoaderError { err, location: l } && err@
                == self.failure() && l@ == location@),
    ;
}

impl<T> GenericContexts<T> for Result<T, LoaderError> {
    open spec fn value(self) -> Option<T> {
        match self {
            Ok(x) => Some(x),
            Err(_) => None,
        }
    }

    open spec fn failure(self) -> Seq<char> {
        match self {
            Ok(_) => Seq::empty(),
            Err(err) => err.message(),
        }
    }

    open spec fn is_out_of_memory(self) -> bool {
        self is Err && self->Err_0 is OutOfMemory
    }

    fn loading_error(self, location: &str) -> (r: Result<T, LoaderError>) {
        match self {
            Ok(x) => Ok(x),
            Err(err) => {
                if let LoaderError::OutOfMemory { .. } = err {
                    Err(LoaderError::out_of_memory(location))
                } else {
                    let text = err.to_message();
                    Err(LoaderError::loading(text.as_str(), location))
                }
            },
        }
    }

    fn internal_error(self, location: &str) -> (r: Result<T, LoaderError>) {
        match self {
            Ok(x) => Ok(x),
            Err(err) => Err(
                LoaderError::InternalLoaderError {
                    err: err.to_message(),
                    location: String::from_str(location),
                },
            ),
        }
    }
}

impl<T> GenericContexts<T> for Result<T, String> {
    open spec fn value(self) -> Option<T> {
        match self {
            Ok(x) => Some(x),
            Err(_) => None,
        }
    }

    open spec fn failure(self) -> Seq<char> {
        match self {
            Ok(_) => Seq::empty(),
            Err(err) => err@,
        }
    }

    open spec fn is_out_of_memory(self) -> bool {
        false
    }

    fn loading_error(self, location: &str) -> (r: Result<T, LoaderError>) {
        match self {
            Ok(x) => Ok(x),
            Err(err) => Err(LoaderError::loading(err.as_str(), location)),
        }
    }

    fn internal_error(self, location: &str) -> (r: Result<T, LoaderError>) {
        match self {
            Ok(x) => Ok(x),
            Err(err) => Err(
                LoaderError::InternalLoaderError { err, location: String::from_str(location) },
            ),
        }
    }
}

impl<T> GenericContexts<T> for Option<T> {
    open spec fn value(self) -> Option<T> {
        self
    }

    open spec fn failure(self) -> Seq<char> {
        "None"@
    }

    open spec fn is_out_of_memory(self) -> bool {
        false
    }

    fn loading_error(self, location: &str) -> (r: Result<T, LoaderError>) {
        match self {
            Some(x) => Ok(x),
            None => Err(LoaderError::loading("None", location)),
        }
    }

    fn internal_error(self, location: &str) -> (r: Result<T, LoaderError>) {
        match self {
            Some(x) => Ok(x),
            None => Err(
                LoaderError::InternalLoaderError {
                    err: String::from_str("None"),
                    location: String::from_str(location),
                },
            ),
        }
    }
}

/// Width, height, stride and pixel format of a frame, as an error reports
/// them.
#[derive(Debug, Clone, Copy, PartialEq, Eq, Structural)]
pub struct FrameGeometry {
    pub width: u32,
    pub height: u32,
    pub stride: u32,
    pub memory_format: MemoryFormat,
}

/// An error of the host. Where the cause is an error of the system or of
/// another library, the variant holds its text.
#[derive(Debug, Clone)]
#[non_exhaustive]
pub enum Error {
    RemoteError(RemoteError),
    GLibError(String),
    StdIoError { err: String, info: String },
    DbusError(String),
    InternalCommunicationCanceled,
    UnknownImageFormat(String),
    /// The loader ended before it answered. `status` is its exit code, where
    /// it has one.
    PrematureExit { status: Option<i32>, cmd: String },
    ConversionTooLargerError,
    SpawnError { cmd: String, err: String },
    TextureTooSmall { texture_size: usize, frame: FrameGeometry },
    StrideTooSmall(FrameGeometry),
    WidgthOrHeightZero(FrameGeometry),
    MemFd(String),
    Seccomp(String),
    IccProfile(String),
}

impl Error {
    /// The image format that is not supported, where that is what the error
    /// says: the media type without a loader, or what the loader reported.
    pub open spec fn unsupported(self) -> Option<Seq<char>> {
        match self {
            Error::UnknownImageFormat(mime_type) => Some(mime_type@),
            Error::RemoteError(RemoteError::UnsupportedImageFormat(msg)) => Some(msg@),
            _ => None,
        }
    }

    pub fn unsupported_format(&self) -> (format: Option<String>)
        ensures
            format is Some <==> self.unsupported() is Some,
            format is Some ==> format->0@ == self.unsupported()->0,
    {
        match self {
            Error::UnknownImageFormat(mime_type) => Some(mime_type.clone()),
            Error::RemoteError(RemoteError::UnsupportedImageFormat(msg)) => Some(msg.clone()),
            _ => None,
        }
    }
}

impl From<RemoteError> for Error {
    fn from(err: RemoteError) -> (e: Self) {
        Error::RemoteError(err)
    }
}

impl vstd::std_specs::convert::FromSpecImpl<RemoteError> for Error {
    open spec fn obeys_from_spec() -> bool {
        true
    }

    open spec fn from_spec(err: RemoteError) -> Self {
        Error::RemoteError(err)
    }
}

impl From<DimensionTooLargerError> for Error {
    fn from(err: DimensionTooLargerError) -> (e: Self) {
        Error::ConversionTooLargerError
    }
}

impl vstd::std_specs::convert::FromSpecImpl<DimensionTooLargerError> for Error {
    open spec fn obeys_from_spec() -> bool {
        true
    }

    open spec fn from_spec(err: DimensionTooLargerError) -> Self {
        Error::ConversionTooLargerError
    }
}

} // verus!
