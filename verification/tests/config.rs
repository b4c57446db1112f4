use glycin::api::{guess_mime_type, supported_mime_types, ContentGuess, Loader, SandboxMechanism};
use glycin::config::{
    data_dirs, default_mime_types, exec_key, expose_base_dir_key, is_manifest, loader_mime_type, manifest_dir_segments,
    Config, ImageDecoderConfig, COMPAT_VERSION,
};
use glycin::error::Error;

fn s(text: &str) -> String {
    text.to_string()
}

#[test]
fn a_manifest_group_names_its_media_type() {
    assert_eq!(loader_mime_type("loader:image/png"), Some(s("image/png")));
    assert_eq!(loader_mime_type("loader:image/svg+xml:extra"), Some(s("image/svg+xml")));
    assert_eq!(loader_mime_type("loader:"), Some(s("")));
    assert_eq!(loader_mime_type("loader"), None);
    assert_eq!(loader_mime_type("Loader:image/png"), None);
    assert_eq!(loader_mime_type("loaders:image/png"), None);
    assert_eq!(loader_mime_type("editor:image/png"), None);
    assert_eq!(loader_mime_type(":image/png"), None);
    assert_eq!(loader_mime_type(""), None);
    assert_eq!(loader_mime_type("loader:bild/größe"), Some(s("bild/größe")));
}

#[test]
fn keys_are_spelled_as_the_format_says() {
    assert_eq!(exec_key(), "Exec");
    assert_eq!(expose_base_dir_key(), "ExposeBaseDir");
}

#[test]
fn the_registry_answers_with_the_loader() {
    let mut config = Config::default();
    assert!(matches!(config.get(&s("image/png")), Err(Error::UnknownImageFormat(m)) if m == "image/png"));
    config.load_group("loader:image/png", Some(s("/usr/libexec/image-loaders/png")), Some(false));
    config.load_group("loader:image/svg+xml", Some(s("/usr/libexec/svg")), Some(true));
    config.load_group("loader:image/jpeg", Some(s("/usr/libexec/jpeg")), None);
    config.load_group("loader:image/gif", None, Some(true));
    config.load_group("other:image/bmp", Some(s("/usr/libexec/bmp")), None);
    let png = config.get(&s("image/png")).unwrap();
    assert_eq!(png.exec_path, "/usr/libexec/image-loaders/png");
    assert!(!png.expose_base_dir);
    assert!(config.get(&s("image/svg+xml")).unwrap().expose_base_dir);
    assert!(!config.get(&s("image/jpeg")).unwrap().expose_base_dir);
    assert!(config.get(&s("image/gif")).is_err());
    assert!(config.get(&s("image/bmp")).is_err());
    let mut types = supported_mime_types(&config);
    types.sort();
    assert_eq!(types, vec![s("image/jpeg"), s("image/png"), s("image/svg+xml")]);
}

#[test]
fn the_later_manifest_wins() {
    let mut config = Config::default();
    // The manifest of a system directory, then the one of the user.
    config.load_group("loader:image/png", Some(s("/usr/libexec/png")), Some(true));
    config.load_group("loader:image/jpeg", Some(s("/usr/libexec/jpeg")), None);
    config.load_group("loader:image/png", Some(s("/home/me/.local/png")), None);
    let png = config.get(&s("image/png")).unwrap();
    assert_eq!(png.exec_path, "/home/me/.local/png");
    assert!(!png.expose_base_dir);
    assert_eq!(config.get(&s("image/jpeg")).unwrap().exec_path, "/usr/libexec/jpeg");
    assert_eq!(config.mime_types().len(), 2);
    config.insert(s("image/png"), ImageDecoderConfig { exec_path: s("/opt/png"), expose_base_dir: true });
    assert_eq!(config.get(&s("image/png")).unwrap().exec_path, "/opt/png");
    assert_eq!(config.mime_types().len(), 2);
}

#[test]
fn a_forced_directory_is_the_only_one() {
    let system = vec![s("/usr/local/share"), s("/usr/share")];
    let user = s("/home/me/.local/share");
    assert_eq!(
        data_dirs(None, system.clone(), user.clone()),
        vec![s("/usr/local/share"), s("/usr/share"), s("/home/me/.local/share")]
    );
    assert_eq!(data_dirs(Some(s("/tmp/d")), system.clone(), user.clone()), vec![s("/tmp/d")]);
    assert_eq!(
        data_dirs(Some(s("")), system.clone(), user.clone()),
        vec![s("/usr/local/share"), s("/usr/share"), s("/home/me/.local/share")]
    );
    assert_eq!(data_dirs(None, vec![], user.clone()), vec![user]);
}

#[test]
fn manifests_lie_below_the_version() {
    assert_eq!(COMPAT_VERSION, 1);
    assert_eq!(manifest_dir_segments(), vec![s("glycin-loaders"), s("1+"), s("conf.d")]);
    assert!(is_manifest("glycin-image-rs.conf"));
    assert!(is_manifest("a.conf"));
    assert!(is_manifest("..conf"));
    assert!(!is_manifest(".conf"));
    assert!(!is_manifest("conf"));
    assert!(!is_manifest("a.conf.bak"));
    assert!(!is_manifest("a.Conf"));
    assert!(!is_manifest("aconf"));
    assert!(!is_manifest(""));
}

fn guess(content_type: &str, mime_type: Option<&str>, unsure: bool) -> ContentGuess {
    ContentGuess { content_type: s(content_type), mime_type: mime_type.map(s), unsure }
}

#[test]
fn a_raw_file_that_looks_like_tiff_is_named_by_its_file_name() {
    let by_content = guess("image/tiff", Some("image/tiff"), false);
    assert!(by_content.needs_filename_hint());
    let by_name = guess("image/x-nikon-nef", Some("image/x-nikon-nef"), false);
    let mime_type = guess_mime_type(by_content, Some(by_name)).unwrap();
    assert_eq!(mime_type, "image/x-nikon-nef");
    let mut config = Config::default();
    config.load_group("loader:image/tiff", Some(s("/usr/libexec/tiff")), None);
    let loader = Loader::new(s("photo.nef"));
    match loader.plan(&config, &mime_type, false, None) {
        Err(err) => {
            assert!(matches!(&err, Error::UnknownImageFormat(m) if m == "image/x-nikon-nef"));
            assert_eq!(err.unsupported_format(), Some(s("image/x-nikon-nef")));
        }
        Ok(_) => panic!("no loader is registered"),
    }
}

#[test]
fn the_file_name_is_asked_only_where_the_content_is_not_enough() {
    let png = guess("image/png", Some("image/png"), false);
    assert!(!png.needs_filename_hint());
    let other = guess("image/x-other", Some("image/x-other"), false);
    assert_eq!(guess_mime_type(png.clone(), Some(other.clone())).unwrap(), "image/png");
    let unsure = guess("image/png", Some("image/png"), true);
    assert!(unsure.needs_filename_hint());
    assert_eq!(guess_mime_type(unsure.clone(), Some(other.clone())).unwrap(), "image/x-other");
    assert_eq!(guess_mime_type(unsure, None).unwrap(), "image/png");
    let xml = guess("application/xml", Some("application/xml"), false);
    assert!(xml.needs_filename_hint());
    let svg = guess("image/svg+xml", Some("image/svg+xml"), false);
    assert_eq!(guess_mime_type(xml, Some(svg)).unwrap(), "image/svg+xml");
    let unknown = guess("x-content/unknown", None, false);
    assert!(!unknown.needs_filename_hint());
    assert!(matches!(
        guess_mime_type(unknown, Some(other)),
        Err(Error::UnknownImageFormat(t)) if t == "x-content/unknown"
    ));
    let tiff = guess("image/tiff", Some("image/tiff"), false);
    let nameless = guess("x-name/unknown", None, true);
    assert!(matches!(
        guess_mime_type(tiff, Some(nameless)),
        Err(Error::UnknownImageFormat(t)) if t == "x-name/unknown"
    ));
}

#[test]
fn the_plan_names_loader_sandbox_and_directory() {
    let mut config = Config::default();
    config.load_group("loader:image/svg+xml", Some(s("/usr/libexec/svg")), Some(true));
    config.load_group("loader:image/png", Some(s("/usr/libexec/png")), None);
    let mut loader = Loader::new(s("/home/me/a.svg"));
    assert!(loader.apply_transformations);
    let plan = loader.plan(&config, &s("image/svg+xml"), false, Some(s("/home/me"))).unwrap();
    assert_eq!(plan.sandbox_mechanism, SandboxMechanism::Bwrap);
    assert_eq!(plan.base_dir, Some(s("/home/me")));
    assert_eq!(plan.mime_type, "image/svg+xml");
    let request = plan.init_request(9);
    assert_eq!(request.fd, 9);
    assert_eq!(request.mime_type, "image/svg+xml");
    assert_eq!(request.details.base_dir, Some(s("/home/me")));
    let plan = loader.plan(&config, &s("image/svg+xml"), true, None).unwrap();
    assert_eq!(plan.sandbox_mechanism, SandboxMechanism::FlatpakSpawn);
    assert_eq!(plan.base_dir, None);
    let plan = loader.plan(&config, &s("image/png"), true, Some(s("/home/me"))).unwrap();
    assert_eq!(plan.base_dir, None);
    assert_eq!(plan.init_request(3).details.base_dir, None);
    loader.sandbox_mechanism(Some(SandboxMechanism::NotSandboxed));
    loader.apply_transformations(false);
    assert!(!loader.apply_transformations);
    let plan = loader.plan(&config, &s("image/png"), true, None).unwrap();
    assert_eq!(plan.sandbox_mechanism, SandboxMechanism::NotSandboxed);
    loader.sandbox_mechanism(None);
    let plan = loader.plan(&config, &s("image/png"), false, None).unwrap();
    assert_eq!(plan.sandbox_mechanism, SandboxMechanism::Bwrap);
}

#[test]
fn the_loaders_that_come_with_the_host_serve_these_types() {
    let types = default_mime_types();
    assert_eq!(types.len(), 22);
    assert_eq!(types[0], "image/jpeg");
    assert_eq!(types[21], "image/svg+xml-compressed");
    for served in ["image/png", "image/avif", "image/heif", "image/jxl", "image/svg+xml", "image/tiff"] {
        assert!(types.iter().any(|x| x == served), "{served}");
    }
    let mut unique = types.clone();
    unique.sort();
    unique.dedup();
    assert_eq!(unique.len(), types.len());
}

#[test]
fn the_settings_of_a_load_can_be_chained() {
    let mut loader = Loader::new(s("a.png"));
    loader.apply_transformations(false).sandbox_mechanism(Some(SandboxMechanism::FlatpakSpawn));
    assert!(!loader.apply_transformations);
    assert_eq!(loader.sandbox_mechanism, glycin::api::SandboxSelector::FlatpakSpawn);
    assert_eq!(loader.file, "a.png");
}
