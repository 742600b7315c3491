//! Client-side codec for the administrative protocol of a simulation server.
//!
//! Values are written positionally: integers little-endian at their natural
//! width, booleans as one byte, strings as UTF-8 closed by `0x00`, sequences
//! as elements each preceded by `true` and closed by `false`, and an optional
//! value, allowed only last, as the value or nothing. A packet is framed by a
//! `u16` total length and a one-byte type tag; the tag selects the layout of
//! the body, and a packet of an unknown type is kept as it came.

pub mod admin;
pub mod client_packets;
pub mod consts;
pub mod date;
pub mod de;
pub mod error;
pub mod frame;
pub mod laws;
pub mod readers;
pub mod ser;
pub mod server_packets;
pub mod types;
pub mod value;
pub mod wire;
pub mod write;

pub use error::Error;
pub use value::{Shape, Value};
