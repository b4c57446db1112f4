use glycin::error::{
    DimensionTooLargerError, Error, FrameGeometry, GenericContexts, LoaderError, RemoteError,
};
use glycin::memory_format::MemoryFormat;

fn s(text: &str) -> String {
    text.to_string()
}

#[test]
fn a_loader_error_tells_where_it_was_seen() {
    let e = LoaderError::loading("unexpected end of file", "src/bin/png.rs:12:5");
    assert_eq!(e.to_message(), "src/bin/png.rs:12:5: unexpected end of file");
    let e = LoaderError::InternalLoaderError { err: s("lock"), location: s("a.rs:1:1") };
    assert_eq!(e.to_message(), "a.rs:1:1: Internal error: lock");
    let e = LoaderError::UnsupportedImageFormat(s("image/x-foo"));
    assert_eq!(e.to_message(), "Unsupported image format: image/x-foo");
    assert_eq!(LoaderError::ConversionTooLargerError.to_message(), "Dimension too large for system");
    assert_eq!(LoaderError::out_of_memory("m.rs:3:9").to_message(), "m.rs:3:9: Not enough memory available");
    assert_eq!(DimensionTooLargerError.to_message(), "Dimension too large for system");
}

#[test]
fn on_the_wire_the_kind_stays_and_the_place_is_text() {
    match RemoteError::from(LoaderError::loading("bad chunk", "png.rs:7:1")) {
        RemoteError::LoadingError(msg) => assert_eq!(msg, "png.rs:7:1: bad chunk"),
        other => panic!("{other:?}"),
    }
    match RemoteError::from(LoaderError::InternalLoaderError { err: s("x"), location: s("l") }) {
        RemoteError::InternalLoaderError(msg) => assert_eq!(msg, "l: Internal error: x"),
        other => panic!("{other:?}"),
    }
    match RemoteError::from(LoaderError::UnsupportedImageFormat(s("image/x-foo"))) {
        RemoteError::UnsupportedImageFormat(msg) => assert_eq!(msg, "image/x-foo"),
        other => panic!("{other:?}"),
    }
    assert!(matches!(
        RemoteError::from(LoaderError::ConversionTooLargerError),
        RemoteError::ConversionTooLargerError
    ));
    match RemoteError::from(LoaderError::out_of_memory("m.rs:1:1")) {
        RemoteError::OutOfMemory(msg) => assert_eq!(msg, "m.rs:1:1: Not enough memory available"),
        other => panic!("{other:?}"),
    }
    assert!(matches!(LoaderError::from(DimensionTooLargerError), LoaderError::ConversionTooLargerError));
}

#[test]
fn error_names_carry_the_prefix() {
    let named = [
        (RemoteError::LoadingError(s("")), "org.gnome.glycin.Error.LoadingError"),
        (RemoteError::InternalLoaderError(s("")), "org.gnome.glycin.Error.InternalLoaderError"),
        (RemoteError::UnsupportedImageFormat(s("")), "org.gnome.glycin.Error.UnsupportedImageFormat"),
        (RemoteError::ConversionTooLargerError, "org.gnome.glycin.Error.ConversionTooLargerError"),
        (RemoteError::OutOfMemory(s("")), "org.gnome.glycin.Error.OutOfMemory"),
    ];
    for (error, name) in named {
        assert_eq!(error.error_name(), Some(s(name)));
    }
    assert_eq!(RemoteError::ZBus(s("broken pipe")).error_name(), None);
}

#[test]
fn a_missing_value_becomes_an_error_with_its_place() {
    let none: Option<u8> = None;
    match none.loading_error("a.rs:1:2") {
        Err(LoaderError::LoadingError { err, location }) => {
            assert_eq!(err, "None");
            assert_eq!(location, "a.rs:1:2");
        }
        other => panic!("{other:?}"),
    }
    let none: Option<u8> = None;
    match none.internal_error("a.rs:3:4") {
        Err(LoaderError::InternalLoaderError { err, location }) => {
            assert_eq!(err, "None");
            assert_eq!(location, "a.rs:3:4");
        }
        other => panic!("{other:?}"),
    }
    assert!(matches!(Some(5u8).loading_error("x"), Ok(5)));
    assert!(matches!(Some(5u8).internal_error("x"), Ok(5)));
}

#[test]
fn a_failure_becomes_an_error_with_its_place() {
    let failed: Result<u8, String> = Err(s("premature end"));
    match failed.loading_error("d.rs:9:9") {
        Err(LoaderError::LoadingError { err, location }) => {
            assert_eq!(err, "premature end");
            assert_eq!(location, "d.rs:9:9");
        }
        other => panic!("{other:?}"),
    }
    let failed: Result<u8, String> = Err(s("poisoned"));
    assert!(matches!(
        failed.internal_error("d.rs:1:1"),
        Err(LoaderError::InternalLoaderError { err, .. }) if err == "poisoned"
    ));
    let fine: Result<u8, String> = Ok(1);
    assert!(matches!(fine.loading_error("x"), Ok(1)));
    // A lack of memory stays one; every other loader error becomes text.
    let failed: Result<u8, LoaderError> = Err(LoaderError::out_of_memory("m.rs:1:1"));
    assert!(matches!(
        failed.loading_error("n.rs:2:2"),
        Err(LoaderError::OutOfMemory { location }) if location == "n.rs:2:2"
    ));
    let failed: Result<u8, LoaderError> = Err(LoaderError::UnsupportedImageFormat(s("image/x")));
    assert!(matches!(
        failed.loading_error("n.rs:2:2"),
        Err(LoaderError::LoadingError { err, location })
            if err == "Unsupported image format: image/x" && location == "n.rs:2:2"
    ));
    let failed: Result<u8, LoaderError> = Err(LoaderError::out_of_memory("m.rs:1:1"));
    assert!(matches!(
        failed.internal_error("n.rs:2:2"),
        Err(LoaderError::InternalLoaderError { err, .. }) if err == "m.rs:1:1: Not enough memory available"
    ));
    let fine: Result<u8, LoaderError> = Ok(3);
    assert!(matches!(fine.internal_error("x"), Ok(3)));
}

#[test]
fn the_unsupported_format_is_named() {
    assert_eq!(Error::UnknownImageFormat(s("image/x-a")).unsupported_format(), Some(s("image/x-a")));
    assert_eq!(
        Error::RemoteError(RemoteError::UnsupportedImageFormat(s("image/x-b"))).unsupported_format(),
        Some(s("image/x-b"))
    );
    let geometry = FrameGeometry { width: 1, height: 1, stride: 1, memory_format: MemoryFormat::G8 };
    let others = [
        Error::RemoteError(RemoteError::LoadingError(s("x"))),
        Error::RemoteError(RemoteError::ConversionTooLargerError),
        Error::GLibError(s("x")),
        Error::StdIoError { err: s("x"), info: s("y") },
        Error::DbusError(s("x")),
        Error::InternalCommunicationCanceled,
        Error::PrematureExit { status: Some(1), cmd: s("x") },
        Error::ConversionTooLargerError,
        Error::SpawnError { cmd: s("x"), err: s("y") },
        Error::TextureTooSmall { texture_size: 1, frame: geometry },
        Error::StrideTooSmall(geometry),
        Error::WidgthOrHeightZero(geometry),
        Error::MemFd(s("x")),
        Error::Seccomp(s("x")),
        Error::IccProfile(s("x")),
    ];
    for error in others {
        assert_eq!(error.unsupported_format(), None, "{error:?}");
    }
    assert!(matches!(Error::from(DimensionTooLargerError), Error::ConversionTooLargerError));
    assert!(matches!(
        Error::from(RemoteError::OutOfMemory(s("m"))),
        Error::RemoteError(RemoteError::OutOfMemory(m)) if m == "m"
    ));
}
