//! Core of a bridge between an NTRIP caster and a GNSS receiver.
//!
//! Correction bytes flow from the caster to the receiver's serial link, and the
//! receiver's own output flows to one downstream network client. This crate holds
//! the rules of that bridge as verified functions on plain values; sockets, serial
//! ports and timers belong to the program built around it.
//!
//! - `endpoint`, `request`, `caster`: the caster's URL, the request sent to it,
//!   and what its reply amounts to.
//! - `relay`: correction frames on their way to the serial link.
//! - `fix`, `downstream`: what is read from the receiver, scanned for a fix
//!   sentence and handed to the downstream client.
//! - `supervisor`: the order of the start, and what follows a lost caster.
//! - `serial`: the serial link's settings and names.
//! - `scan`, `text`: searching sequences, and UTF-8 text against its bytes.
//! - `error`: the errors and their classes.

pub mod caster;
pub mod downstream;
pub mod endpoint;
pub mod error;
pub mod fix;
pub mod relay;
pub mod request;
pub mod scan;
pub mod serial;
pub mod supervisor;
pub mod text;
