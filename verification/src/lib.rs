//! A verified implementation of the client side of the IEC 60870-5-104
//! telecontrol protocol: the frame codec with tolerant resynchronization,
//! the ASDU parser for measurements with quality and timestamps, and the
//! link state machine with modulo-32768 sliding-window flow control.
//!
//! The crate holds the protocol engine only. Transport, timers and the
//! event loop live with the caller, who feeds received bytes in and writes
//! the frames and answers handed back.

pub mod asdu;
pub mod client;
pub mod codec;
pub mod apci;
pub mod cot;
pub mod data;
pub mod type_id;
pub mod error;
pub mod parser;
pub mod text;

pub use apci::{Apci, FrameType, UFunction, MAX_APDU_LENGTH, MIN_APDU_LENGTH, START_BYTE};
pub use asdu::{Asdu, AsduHeader, Cp56Time2a, DoublePoint, DoublePointValue, InformationObject, Ioa, MeasuredQuality, QualityDescriptor, SinglePoint, Vsq, IOA_SIZE};
pub use client::{ClientConfig, ConnectionState, Iec104Event, Link, UAction};
pub use codec::{Apdu, Iec104Codec};
pub use cot::Cot;
pub use data::{DataPoint, DataValue, Quality};
pub use error::Iec104Error;
pub use parser::parse_asdu;
pub use type_id::TypeId;
