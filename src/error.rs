use vstd::prelude::*;

verus! {

/// The closed set of failures the library reports.
#[derive(Debug, Clone, PartialEq, Eq)]
pub enum LostLoveError {
    /// An underlying stream or file failed; the text describes it.
    Io(String),
    InvalidProtocolId(u16),
    InvalidPacketType(u8),
    InsufficientData { expected: usize, actual: usize },
    ChecksumMismatch { expected: u16, actual: u16 },
    InvalidSequence(u64),
    TimestampTooOld(u64),
    Connection(String),
    TooManyConnections,
    SessionNotFound(String),
    Config(String),
    Network(String),
    HandshakeFailed(String),
    Crypto(String),
}

pub type Result<T> = core::result::Result<T, LostLoveError>;

} // verus!
