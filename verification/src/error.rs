//! The errors this crate reports, mirroring the protocol's taxonomy:
//! transport-level failures, framing faults, and value-level decode errors.
use vstd::prelude::*;

verus! {

/// A failure while decoding an MSDP payload.  Each variant names the token
/// the decoder expected and did not find.
#[derive(Clone, Copy, Debug, PartialEq, Eq, Structural)]
pub enum DecodeError {
    /// A `VAR` delimiter was expected and absent.
    ExpectedVar,
    /// The data token carrying a variable name was absent.
    ExpectedVarData,
    /// A `VAL` delimiter was expected and absent.
    ExpectedVal,
    /// The token after `VAL` was neither data nor an opening delimiter.
    Malformed,
    /// The tokens ended before an `ARRAY_CLOSE` was found.
    UnterminatedArray,
    /// The tokens ended before a `TABLE_CLOSE` was found.
    UnterminatedTable,
    /// A data token did not hold valid UTF-8.
    InvalidUtf8,
}

/// A failure at the connection level.
#[derive(Clone, Copy, Debug, PartialEq, Eq, Structural)]
pub enum TnError {
    /// The transport delivered an IAC command this client does not know.
    UnknownIac(u8),
    /// The transport's read timed out.
    TimedOut,
    /// A text chunk did not hold valid UTF-8.
    InvalidUtf8,
    /// An MSDP payload failed to decode.
    Decode(DecodeError),
    /// An option code outside the set this client can name.
    UnknownOption(u8),
    /// A sub-negotiation arrived for an option with no handler.
    UnsupportedOption(u8),
    /// The terminal-type responder was asked for a fourth reply.
    MttsExhausted,
}

} // verus!
