//! Decision core of a tray utility that routes a Bluetooth audio source to an
//! audio-playback sink.
//!
//! Everything here is a function from plain values to plain values: window
//! messages, menu commands and connection events go in, and the action that
//! the surrounding program has to carry out with the operating system comes
//! back.  The caller owns every operating-system handle.
//!
//! * `application`: the hidden window and its messages
//! * `notify_icon`: the tray icon, its popup menu and its commands
//! * `connection_manager`, `registry`, `status`: the live connections and
//!   what the device picker shows for a device
//! * `config`: the preferences and their TOML form
//! * `locale`: the user's preferred languages
//! * `installer`: the variables of the installer
//! * `bitmap`, `paint`: pixels and colours
//! * `text`: decimal text of integers

pub mod application;
pub mod bitmap;
pub mod config;
pub mod connection_manager;
pub mod installer;
pub mod locale;
pub mod notify_icon;
pub mod paint;
pub mod registry;
pub mod status;
pub mod text;
