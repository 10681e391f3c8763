//! Error types for the IEC 60870-5-104 protocol engine.

use vstd::prelude::*;

verus! {

use crate::text::{dec_str, fmt_u16, fmt_u32};

/// IEC 60870-5-104 protocol error kinds.
#[derive(Debug, Clone, PartialEq, Eq)]
pub enum Iec104Error {
    /// Connection error
    Connection(String),
    /// Not connected to remote
    NotConnected,
    /// Connection timeout
    ConnectionTimeout,
    /// Protocol error
    Protocol(String),
    /// Invalid frame format
    InvalidFrame(String),
    /// Invalid ASDU
    InvalidAsdu(String),
    /// Unknown type identifier
    UnknownTypeId(u8),
    /// Sequence number mismatch
    SequenceMismatch { expected: u16, actual: u16 },
    /// T1 timeout (send confirmation)
    T1Timeout,
    /// T2 timeout (no data acknowledgment)
    T2Timeout,
    /// T3 timeout (test frame)
    T3Timeout,
    /// Too many unconfirmed frames
    TooManyUnconfirmed(u16),
    /// Channel closed
    ChannelClosed,
    /// Codec error
    Codec(String),
    /// Internal error
    Internal(String),
}

/// The human-readable description of an error.
pub open spec fn spec_message(e: Iec104Error) -> Seq<char> {
    match e {
        Iec104Error::Connection(m) => "Connection error: "@ + m@,
        Iec104Error::NotConnected => "Not connected"@,
        Iec104Error::ConnectionTimeout => "Connection timeout"@,
        Iec104Error::Protocol(m) => "Protocol error: "@ + m@,
        Iec104Error::InvalidFrame(m) => "Invalid frame: "@ + m@,
        Iec104Error::InvalidAsdu(m) => "Invalid ASDU: "@ + m@,
        Iec104Error::UnknownTypeId(t) => "Unknown type ID: "@ + dec_str(t as int),
        Iec104Error::SequenceMismatch { expected, actual } => "Sequence number mismatch: expected "@
            + dec_str(expected as int) + ", got "@ + dec_str(actual as int),
        Iec104Error::T1Timeout => "T1 timeout: no confirmation received"@,
        Iec104Error::T2Timeout => "T2 timeout: acknowledgment timeout"@,
        Iec104Error::T3Timeout => "T3 timeout: connection test failed"@,
        Iec104Error::TooManyUnconfirmed(k) => "Too many unconfirmed frames (K="@ + dec_str(k as int)
            + ")"@,
        Iec104Error::ChannelClosed => "Channel closed"@,
        Iec104Error::Codec(m) => "Codec error: "@ + m@,
        Iec104Error::Internal(m) => "Internal error: "@ + m@,
    }
}

impl Iec104Error {
    /// Create a protocol error with a message.
    pub fn protocol(msg: &str) -> (r: Self)
        ensures
            r == Iec104Error::Protocol(r->Protocol_0) && r->Protocol_0@ == msg@,
    {
        Self::Protocol(msg.to_owned())
    }

    /// Create an invalid frame error.
    pub fn invalid_frame(msg: &str) -> (r: Self)
        ensures
            r == Iec104Error::InvalidFrame(r->InvalidFrame_0) && r->InvalidFrame_0@ == msg@,
    {
        Self::InvalidFrame(msg.to_owned())
    }

    /// Create an invalid ASDU error.
    pub fn invalid_asdu(msg: &str) -> (r: Self)
        ensures
            r == Iec104Error::InvalidAsdu(r->InvalidAsdu_0) && r->InvalidAsdu_0@ == msg@,
    {
        Self::InvalidAsdu(msg.to_owned())
    }

    /// Check if this error indicates a connection problem.
    pub fn is_connection_error(&self) -> (r: bool)
        ensures
            r == (self is Connection || self is NotConnected || self is ConnectionTimeout
                || self is T3Timeout),
    {
        match self {
            Self::Connection(_) | Self::NotConnected | Self::ConnectionTimeout | Self::T3Timeout => {
                true
            },
            _ => false,
        }
    }

    /// Check if this error is retryable.
    pub fn is_retryable(&self) -> (r: bool)
        ensures
            r == (self is ConnectionTimeout || self is T1Timeout || self is T2Timeout
                || self is T3Timeout),
    {
        match self {
            Self::ConnectionTimeout | Self::T1Timeout | Self::T2Timeout | Self::T3Timeout => true,
            _ => false,
        }
    }

    /// The human-readable description of this error.
    pub fn message(&self) -> (r: String)
        ensures
            r@ == spec_message(*self),
    {
        match self {
            Self::Connection(m) => concat_msg("Connection error: ", m),
            Self::NotConnected => "Not connected".to_owned(),
            Self::ConnectionTimeout => "Connection timeout".to_owned(),
            Self::Protocol(m) => concat_msg("Protocol error: ", m),
            Self::InvalidFrame(m) => concat_msg("Invalid frame: ", m),
            Self::InvalidAsdu(m) => concat_msg("Invalid ASDU: ", m),
            Self::UnknownTypeId(t) => {
                let mut s = "Unknown type ID: ".to_owned();
                s.append(fmt_u32(*t as u32).as_str());
                s
            },
            Self::SequenceMismatch { expected, actual } => {
                let mut s = "Sequence number mismatch: expected ".to_owned();
                s.append(fmt_u16(*expected).as_str());
                s.append(", got ");
                s.append(fmt_u16(*actual).as_str());
                s
            },
            Self::T1Timeout => "T1 timeout: no confirmation received".to_owned(),
            Self::T2Timeout => "T2 timeout: acknowledgment timeout".to_owned(),
            Self::T3Timeout => "T3 timeout: connection test failed".to_owned(),
            Self::TooManyUnconfirmed(k) => {
                let mut s = "Too many unconfirmed frames (K=".to_owned();
                s.append(fmt_u16(*k).as_str());
                s.append(")");
                s
            },
            Self::ChannelClosed => "Channel closed".to_owned(),
            Self::Codec(m) => concat_msg("Codec error: ", m),
            Self::Internal(m) => concat_msg("Internal error: ", m),
        }
    }
}

/// Concatenate a static prefix with a stored message.
fn concat_msg(prefix: &str, m: &String) -> (r: String)
    ensures
        r@ == prefix@ + m@,
{
    let mut s = prefix.to_owned();
    s.append(m.as_str());
    s
}

} // verus!
