//! Verified core of the Codex Desktop Linux updater and Chrome extension host.
pub mod text;
pub mod path;
pub mod package;
pub mod installed;
pub mod version;
pub mod pattern;
pub mod handshake;
pub mod pending;
pub mod router;
pub mod staging;
pub mod prebuilt;
pub mod runtime;
pub mod assets;
pub mod frame;
pub mod rollout;
pub mod gentoo;
pub mod commands;
pub mod install;
pub mod socket;
pub mod launch;
