//! Protocol engine for a USB screen-mirroring dongle.
//!
//! The dongle speaks a framed binary protocol: every frame starts with a
//! fixed 16-byte header (magic number, payload length, type tag, inverted-bits
//! checksum), optionally followed by a typed payload.  This crate provides the
//! header codec, the tag and command registries, the decode and encode logic
//! for every payload shape, and the pure part of the driver session (the
//! configuration model and the fixed startup handshake).  USB transport and
//! rendering live outside the crate; they exchange plain values with it.

pub mod commands;
pub mod driver;
pub mod message;
pub mod messagetypes;
pub mod readable;
pub mod sendable;
pub mod wire;
