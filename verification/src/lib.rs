//! Relay core of Dev Lens, a developer-inspection tool.
//!
//! An instrumented page reports network requests, console lines and changes
//! of its WebSocket connections. The relay decodes each report and routes it
//! to a channel of the host application's event bus. It keeps nothing between
//! two reports.
//!
//! Reports arrive by one of two transports: a call per report on one of three
//! endpoints ([`request`]), or frames on a lasting connection, each
//! acknowledged once it was decoded ([`connection`]). Both decode into the
//! messages of [`message`] ([`decode`], over the documents of [`json`] that
//! [`text`] reads) and route them alike ([`router`], [`agreement`]). What the
//! host receives is written by [`encode`], and [`roundtrip`] shows that it
//! holds every field that was decoded.
//!
//! The library performs no input or output. Its callers read and send; they
//! hand over texts and outcomes and are told what to do next.

pub mod agreement;
pub mod commands;
pub mod connection;
pub mod decode;
pub mod decode_laws;
pub mod encode;
pub mod json;
pub mod member;
pub mod message;
pub mod request;
pub mod roundtrip;
pub mod router;
pub mod server;
pub mod string_map;
pub mod text;
