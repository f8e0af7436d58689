//! Media asset extraction: verified core of a preview-artifact pipeline.
//!
//! Two leaf components serve a host application:
//! - a subprocess stream collector, which accumulates the binary standard
//!   output of an external transcoder process into one flat buffer
//!   ([`collector`]), driven by command specifications built in [`command`];
//! - a platform bitmap converter, which turns raw device-native pixel data
//!   (blue-green-red-alpha) into a portable PNG image ([`bitmap`]).
//!
//! The host performs the actual process spawning and operating-system calls
//! and hands the library plain values; every decision and transformation on
//! those values is verified here.

pub mod bitmap;
pub mod collector;
pub mod command;
pub mod errors;
