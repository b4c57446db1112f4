[package]
name = "glycin"
version = "0.1.0"
edition = "2021"
publish = false

[dependencies]
async-fs = "2"
async-global-executor = "2"
async-lock = "3"
futures-channel = "0.3"
futures-lite = "2"
futures-util = "0.3"
gio = "0.19"
gufo-common = "0.1"
gufo-exif = "0.1"
image = "0.24"
kamadak-exif = "0.5"
lcms2 = "6"
libc = "0.2"
libseccomp = "0.3"
memfd = "0.6"
memmap2 = "0.9"
nix = { version = "0.28", features = ["fs", "resource", "signal"] }
rmp-serde = "1"
serde = { version = "1", features = ["derive"] }
thiserror = "1"
zbus = "4"
