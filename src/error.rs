//! Errors of the codec.

use vstd::prelude::*;

verus! {

/// What can go wrong while encoding or decoding a packet.
#[derive(Debug, Clone, Copy, PartialEq, Eq, Structural)]
pub enum Error {
    /// The input ended where more bytes were expected.
    UnexpectedEnd,
    /// Bytes were left over after the expected value was read.
    TrailingBytes,
    /// A string was not closed by a `0x00` byte.
    UnterminatedString,
    /// A string's bytes are not well-formed UTF-8.
    InvalidUtf8,
    /// A boolean byte other than `0` or `1`.
    InvalidBool,
    /// A value was written after an `Option`, which must come last.
    InvalidOption,
    /// An integer lies outside the range of the type it stands for.
    InvalidValue,
    /// A frame header declares a total length below the header's own size.
    MalformedHeader,
    /// A body too long for the 16-bit length of a frame.
    PacketTooLarge,
}

impl Error {
    /// A short description of the error.
    pub fn description(&self) -> (r: &'static str)
    {
        match self {
            Error::UnexpectedEnd => "the input ended unexpectedly",
            Error::TrailingBytes => "the input has trailing bytes",
            Error::UnterminatedString => "string doesn't end with a NUL byte",
            Error::InvalidUtf8 => "string is not valid UTF-8",
            Error::InvalidBool => "invalid bool",
            Error::InvalidOption => "invalid option",
            Error::InvalidValue => "value out of range",
            Error::MalformedHeader => "packet length below the header size",
            Error::PacketTooLarge => "packet too large",
        }
    }
}

} // verus!
