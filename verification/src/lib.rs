//! Core of a desktop-background updater.
//!
//! The program around this library fetches an image over HTTP at a regular
//! interval and hands it to the desktop. The library holds everything that
//! is decided along the way, stated over plain values and proved:
//!
//! - `app_config`: the configuration, the rules it must meet before
//!   auto-update may run, and what is made of a stored copy.
//! - `app_gui`: the state shared by the window and the background worker,
//!   and what a user may do to it.
//! - `common_utils`: the shape of an image address, colour packing, and the
//!   fetch pipeline with its fallback on a bundled image.
//! - `scheduler`: the background worker as a machine of events and actions.
//! - `interplay`: what holds however the turns of window and worker fall.
//! - `windows_os_utils`: what is asked of the desktop.
//! - `preview`, `clock`, `text`: decoded pictures, the wall clock, and text.
//!
//! Reading and writing files, the network, the window and the calls into
//! the operating system are left to the caller: the worker is told what
//! happened outside, and answers with what to do next.

pub mod app_config;
pub mod app_constants;
pub mod app_gui;
pub mod clock;
pub mod common_utils;
pub mod interplay;
pub mod preview;
pub mod scheduler;
pub mod text;
pub mod utils;
pub mod windows_os_utils;
