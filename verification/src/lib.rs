//! A content-addressed file distribution library.
//!
//! Files are identified by the cryptographic digest of their contents,
//! rendered as lowercase hexadecimal. A registry owns the queue of pending
//! paths and the map from digest to path; pure routing, address-selection
//! and URL-composition logic make the registry usable behind an HTTP
//! front end.

pub mod config;
pub mod errors;
pub mod hash;
pub mod html;
pub mod net;
pub mod qr;
pub mod registry;
pub mod routes;
pub mod server;
pub mod strutil;
pub mod textfmt;
pub mod url;
pub mod utils;
