//! Link state machine and sliding-window flow control.
//!
//! The decision core of an IEC 60870-5-104 client session: connection
//! lifecycle (STARTDT / STOPDT / TESTFR), modulo-32768 sequence numbers,
//! per-side unconfirmed-frame accounting with the K and W limits, and timer
//! evaluation. All I/O stays outside: the surrounding driver feeds received
//! frames in and performs the actions handed back.

use vstd::prelude::*;

verus! {

use crate::apci::UFunction;
use crate::asdu::Asdu;
use crate::cot::Cot;
use crate::data::DataPoint;
use crate::error::Iec104Error;
use crate::parser::{parse_asdu, spec_ioa_at, spec_parse_asdu};

/// Default IEC 104 port.
pub const DEFAULT_PORT: u16 = 2404;

/// Default T1 timeout (send confirmation) in seconds.
pub const DEFAULT_T1_TIMEOUT: u64 = 15;

/// Default T2 timeout (no data acknowledgment) in seconds.
pub const DEFAULT_T2_TIMEOUT: u64 = 10;

/// Default T3 timeout (test frame) in seconds.
pub const DEFAULT_T3_TIMEOUT: u64 = 20;

/// Default K parameter (max unconfirmed I-frames).
pub const DEFAULT_K: u16 = 12;

/// Default W parameter (max unconfirmed receives before sending S-frame).
pub const DEFAULT_W: u16 = 8;

/// Sequence numbers are 15 bits wide: all comparison is modulo this value.
pub const SEQ_MODULO: u16 = 32768;

/// Client configuration. Timeouts are in milliseconds.
#[derive(Debug, Clone, PartialEq, Eq)]
pub struct ClientConfig {
    /// Server address (host:port)
    pub address: String,
    /// Connection timeout in milliseconds
    pub connect_timeout_ms: u64,
    /// T1 timeout in milliseconds: time to wait for send confirmation
    pub t1_timeout_ms: u64,
    /// T2 timeout in milliseconds: idle time before acknowledging received data
    pub t2_timeout_ms: u64,
    /// T3 timeout in milliseconds: idle time before testing the link
    pub t3_timeout_ms: u64,
    /// K parameter: max unconfirmed I-frames sent
    pub k: u16,
    /// W parameter: max unconfirmed receives before sending an S-frame
    pub w: u16,
}

/// A valid configuration: the S-frame trigger is positive and strictly below
/// the send window, the send window fits the sequence space, and the timer
/// constraint t2 < t1 < t3 holds.
pub open spec fn spec_config_wf(c: ClientConfig) -> bool {
    &&& 0 < c.w < c.k <= 32767
    &&& c.t2_timeout_ms < c.t1_timeout_ms < c.t3_timeout_ms
}

impl ClientConfig {
    /// Create a new configuration with the given address and the standard
    /// defaults.
    pub fn new(address: &str) -> (r: Self)
        ensures
            r.address@ == address@,
            r.connect_timeout_ms == 10_000,
            r.t1_timeout_ms == 15_000,
            r.t2_timeout_ms == 10_000,
            r.t3_timeout_ms == 20_000,
            r.k == 12,
            r.w == 8,
            spec_config_wf(r),
    {
        Self {
            address: address.to_owned(),
            connect_timeout_ms: 10_000,
            t1_timeout_ms: DEFAULT_T1_TIMEOUT * 1000,
            t2_timeout_ms: DEFAULT_T2_TIMEOUT * 1000,
            t3_timeout_ms: DEFAULT_T3_TIMEOUT * 1000,
            k: DEFAULT_K,
            w: DEFAULT_W,
        }
    }

    /// Set connection timeout (milliseconds).
    pub fn connect_timeout(self, timeout_ms: u64) -> (r: Self)
        ensures
            r == (ClientConfig { connect_timeout_ms: timeout_ms, ..self }),
    {
        Self { connect_timeout_ms: timeout_ms, ..self }
    }

    /// Set T1 timeout (milliseconds).
    pub fn t1_timeout(self, timeout_ms: u64) -> (r: Self)
        ensures
            r == (ClientConfig { t1_timeout_ms: timeout_ms, ..self }),
    {
        Self { t1_timeout_ms: timeout_ms, ..self }
    }

    /// Set T2 timeout (milliseconds).
    pub fn t2_timeout(self, timeout_ms: u64) -> (r: Self)
        ensures
            r == (ClientConfig { t2_timeout_ms: timeout_ms, ..self }),
    {
        Self { t2_timeout_ms: timeout_ms, ..self }
    }

    /// Set T3 timeout (milliseconds).
    pub fn t3_timeout(self, timeout_ms: u64) -> (r: Self)
        ensures
            r == (ClientConfig { t3_timeout_ms: timeout_ms, ..self }),
    {
        Self { t3_timeout_ms: timeout_ms, ..self }
    }
}

/// Connection state.
#[derive(Debug, Clone, Copy, PartialEq, Eq, Structural)]
pub enum ConnectionState {
    /// Not connected
    Disconnected,
    /// TCP connected, waiting for STARTDT
    Connected,
    /// Data transfer active (STARTDT confirmed)
    Active,
    /// Stopping data transfer
    Stopping,
}

/// Events emitted to the consumer.
#[derive(Debug, Clone, PartialEq)]
pub enum Iec104Event {
    /// Connected to server
    Connected,
    /// Disconnected from server
    Disconnected,
    /// Data transfer started
    DataTransferStarted,
    /// Data transfer stopped
    DataTransferStopped,
    /// Data update with parsed data points
    DataUpdate(Vec<DataPoint>),
    /// Received raw ASDU (for types that don't produce data points)
    AsduReceived(Asdu),
    /// Command confirmed
    CommandConfirm {
        /// Information object address
        ioa: u32,
        /// Whether the command was successful
        success: bool,
    },
    /// Interrogation terminated
    InterrogationComplete {
        /// Common address
        common_address: u16,
    },
    /// Error occurred
    Error(String),
}

/// The response a U-frame asks of the driver.
#[derive(Debug, Clone, Copy, PartialEq, Eq, Structural)]
pub enum UAction {
    /// Nothing to do
    NoAction,
    /// Answer with TESTFR con immediately
    SendTestFrCon,
    /// The STARTDT handshake completed: data transfer started
    Started,
    /// The STOPDT handshake completed: data transfer stopped
    Stopped,
}

/// The live session state: connection lifecycle, sequence numbers and
/// unconfirmed-frame accounting.
#[derive(Debug, Clone, PartialEq)]
pub struct Link {
    /// Configuration
    pub config: ClientConfig,
    /// Connection state
    pub state: ConnectionState,
    /// Sequence number of the next I-frame to send (modulo 32768)
    pub send_seq: u16,
    /// Sequence number expected of the next received I-frame (modulo 32768)
    pub recv_seq: u16,
    /// I-frames sent and not yet acknowledged (at most K)
    pub unconfirmed_sends: u16,
    /// I-frames received and not yet acknowledged (strictly below W)
    pub unconfirmed_recvs: u16,
    /// A STARTDT act was sent and its confirmation is pending
    pub start_pending: bool,
    /// A TESTFR act was sent and its confirmation is pending
    pub test_pending: bool,
}

/// The window invariant of a link: the configuration is valid, both
/// sequence numbers are within the 15-bit space, at most K sent frames are
/// unacknowledged, and fewer than W received frames are unacknowledged.
pub open spec fn spec_link_wf(l: Link) -> bool {
    &&& spec_config_wf(l.config)
    &&& l.send_seq < 32768
    &&& l.recv_seq < 32768
    &&& l.unconfirmed_sends <= l.config.k
    &&& l.unconfirmed_recvs < l.config.w
}

/// The window law: a link that satisfies its invariant never exceeds K
/// unacknowledged sends nor W unacknowledged receives.
pub proof fn lemma_window_bounds(l: Link)
    requires
        spec_link_wf(l),
    ensures
        l.unconfirmed_sends <= l.config.k,
        l.unconfirmed_recvs <= l.config.w,
{
}

/// A sequence number advanced `j` steps, modulo 32768.
pub open spec fn spec_seq_after(s: int, j: int) -> int {
    (s + j) % 32768
}

/// The sequence cycling law: stepping a sequence number one at a time
/// reaches every value of the 15-bit space within one period (no value is
/// skipped), and exactly one period later returns to the start.
pub proof fn lemma_send_seq_cycles(s: u16, v: u16)
    requires
        s < 32768,
        v < 32768,
    ensures
        exists|j: int| 0 <= j < 32768 && spec_seq_after(s as int, j) == v,
        spec_seq_after(s as int, 32768) == s,
{
    let j: int = if v >= s {
        v - s
    } else {
        v + 32768 - s
    };
    assert(spec_seq_after(s as int, j) == v);
    assert(spec_seq_after(s as int, 32768) == s);
}

/// Within one period, no two step counts land on the same sequence number:
/// stepping one at a time skips no value.
pub proof fn lemma_seq_steps_distinct(s: u16, j1: int, j2: int)
    requires
        s < 32768,
        0 <= j1 < j2 < 32768,
    ensures
        spec_seq_after(s as int, j1) != spec_seq_after(s as int, j2),
{
    let m: int = 32768;
    let a: int = s + j1;
    let b: int = s + j2;
    vstd::arithmetic::div_mod::lemma_fundamental_div_mod(a, m);
    vstd::arithmetic::div_mod::lemma_fundamental_div_mod(b, m);
    if a % m == b % m {
        assert(b - a == m * (b / m) - m * (a / m));
        assert(0 < b - a < m);
        assert(m * (b / m) - m * (a / m) == m * (b / m - a / m)) by (nonlinear_arith);
        let d = b / m - a / m;
        assert(m * d == b - a);
        assert(0 < m * d < m);
        assert(false) by (nonlinear_arith)
            requires
                0 < m * d < m,
                m == 32768,
        ;
    }
}

/// The sequence number that the oldest unacknowledged sent frame carried.
pub open spec fn spec_oldest_unacked(l: Link) -> int {
    (l.send_seq + 32768 - l.unconfirmed_sends) % 32768
}

/// The number of sent frames that an acknowledgement up to `rs` covers.
pub open spec fn spec_acked_by(l: Link, rs: u16) -> int {
    (rs + 32768 - spec_oldest_unacked(l)) % 32768
}

impl Link {
    /// Create a new link in the Disconnected state.
    pub fn new(config: ClientConfig) -> (r: Self)
        requires
            spec_config_wf(config),
        ensures
            r.config == config,
            r.state is Disconnected,
            r.send_seq == 0,
            r.recv_seq == 0,
            r.unconfirmed_sends == 0,
            r.unconfirmed_recvs == 0,
            !r.start_pending,
            !r.test_pending,
            spec_link_wf(r),
    {
        Self {
            config,
            state: ConnectionState::Disconnected,
            send_seq: 0,
            recv_seq: 0,
            unconfirmed_sends: 0,
            unconfirmed_recvs: 0,
            start_pending: false,
            test_pending: false,
        }
    }

    /// Get the current connection state.
    pub fn state(&self) -> (r: ConnectionState)
        ensures
            r == self.state,
    {
        self.state
    }

    /// The transport connected: enter Connected and reset all sequence
    /// numbers and counters to zero.
    pub fn on_connected(&mut self)
        requires
            spec_link_wf(*old(self)),
            old(self).state is Disconnected,
        ensures
            final(self).state is Connected,
            final(self).send_seq == 0,
            final(self).recv_seq == 0,
            final(self).unconfirmed_sends == 0,
            final(self).unconfirmed_recvs == 0,
            !final(self).start_pending,
            !final(self).test_pending,
            final(self).config == old(self).config,
            spec_link_wf(*final(self)),
    {
        self.state = ConnectionState::Connected;
        self.send_seq = 0;
        self.recv_seq = 0;
        self.unconfirmed_sends = 0;
        self.unconfirmed_recvs = 0;
        self.start_pending = false;
        self.test_pending = false;
    }

    /// The transport closed or a fatal error occurred: enter Disconnected.
    pub fn on_disconnected(&mut self)
        requires
            spec_link_wf(*old(self)),
        ensures
            *final(self) == (Link {
                state: ConnectionState::Disconnected,
                start_pending: false,
                test_pending: false,
                ..*old(self)
            }),
            spec_link_wf(*final(self)),
    {
        self.state = ConnectionState::Disconnected;
        self.start_pending = false;
        self.test_pending = false;
    }

    /// A STARTDT act was written to the wire. Rejected outside Connected.
    pub fn start_dt_sent(&mut self) -> (r: Result<(), Iec104Error>)
        requires
            spec_link_wf(*old(self)),
        ensures
            spec_link_wf(*final(self)),
            old(self).state is Connected ==> (r is Ok && *final(self) == (Link {
                start_pending: true,
                ..*old(self)
            })),
            !(old(self).state is Connected) ==> (*final(self) == *old(self) && (
            r matches Err(e) && e is Protocol)),
    {
        if !matches!(self.state, ConnectionState::Connected) {
            return Err(Iec104Error::protocol("Not connected or already active"));
        }
        self.start_pending = true;
        Ok(())
    }

    /// A STOPDT act was written to the wire. Rejected outside Active.
    pub fn stop_dt_sent(&mut self) -> (r: Result<(), Iec104Error>)
        requires
            spec_link_wf(*old(self)),
        ensures
            spec_link_wf(*final(self)),
            old(self).state is Active ==> (r is Ok && *final(self) == (Link {
                state: ConnectionState::Stopping,
                ..*old(self)
            })),
            !(old(self).state is Active) ==> (*final(self) == *old(self) && (r matches Err(e)
                && e is Protocol)),
    {
        if !matches!(self.state, ConnectionState::Active) {
            return Err(Iec104Error::protocol("Data transfer not active"));
        }
        self.state = ConnectionState::Stopping;
        Ok(())
    }

    /// A TESTFR act was written to the wire.
    pub fn test_fr_sent(&mut self)
        requires
            spec_link_wf(*old(self)),
        ensures
            *final(self) == (Link { test_pending: true, ..*old(self) }),
            spec_link_wf(*final(self)),
    {
        self.test_pending = true;
    }

    /// Handle a received U-frame: answer TESTFR act at once, complete the
    /// handshake a pending confirmation belongs to, and reject any U-frame
    /// unexpected in the current state as a protocol error.
    pub fn handle_u_frame(&mut self, function: UFunction) -> (r: Result<UAction, Iec104Error>)
        requires
            spec_link_wf(*old(self)),
        ensures
            spec_link_wf(*final(self)),
            final(self).config == old(self).config,
            (match function {
                UFunction::TestFrAct => r == Ok::<UAction, Iec104Error>(UAction::SendTestFrCon)
                    && *final(self) == *old(self),
                UFunction::TestFrCon => if old(self).test_pending {
                    r == Ok::<UAction, Iec104Error>(UAction::NoAction) && *final(self) == (Link {
                        test_pending: false,
                        ..*old(self)
                    })
                } else {
                    (r matches Err(e) && e is Protocol) && *final(self) == *old(self)
                },
                UFunction::StartDtCon => if old(self).state is Connected && old(self).start_pending {
                    r == Ok::<UAction, Iec104Error>(UAction::Started) && *final(self) == (Link {
                        state: ConnectionState::Active,
                        start_pending: false,
                        ..*old(self)
                    })
                } else {
                    (r matches Err(e) && e is Protocol) && *final(self) == *old(self)
                },
                UFunction::StopDtCon => if old(self).state is Stopping {
                    r == Ok::<UAction, Iec104Error>(UAction::Stopped) && *final(self) == (Link {
                        state: ConnectionState::Connected,
                        ..*old(self)
                    })
                } else {
                    (r matches Err(e) && e is Protocol) && *final(self) == *old(self)
                },
                _ => (r matches Err(e) && e is Protocol) && *final(self) == *old(self),
            }),
    {
        match function {
            UFunction::TestFrAct => Ok(UAction::SendTestFrCon),
            UFunction::TestFrCon => {
                if self.test_pending {
                    self.test_pending = false;
                    Ok(UAction::NoAction)
                } else {
                    Err(Iec104Error::protocol("Unexpected TESTFR con"))
                }
            },
            UFunction::StartDtCon => {
                if matches!(self.state, ConnectionState::Connected) && self.start_pending {
                    self.state = ConnectionState::Active;
                    self.start_pending = false;
                    Ok(UAction::Started)
                } else {
                    Err(Iec104Error::protocol("Unexpected STARTDT con"))
                }
            },
            UFunction::StopDtCon => {
                if matches!(self.state, ConnectionState::Stopping) {
                    self.state = ConnectionState::Connected;
                    Ok(UAction::Stopped)
                } else {
                    Err(Iec104Error::protocol("Unexpected STOPDT con"))
                }
            },
            UFunction::StartDtAct | UFunction::StopDtAct => {
                Err(Iec104Error::protocol("Unexpected U-frame"))
            },
        }
    }

    /// Claim the sequence numbers for a new outgoing I-frame and account for
    /// it: the send sequence advances modulo 32768, the frame joins the
    /// unacknowledged window, and the piggybacked acknowledgement clears the
    /// receive counter. Rejected outside Active, and when K frames are
    /// already unacknowledged.
    pub fn begin_i_frame(&mut self) -> (r: Result<(u16, u16), Iec104Error>)
        requires
            spec_link_wf(*old(self)),
        ensures
            spec_link_wf(*final(self)),
            !(old(self).state is Active) ==> (*final(self) == *old(self) && (r matches Err(e)
                && e == Iec104Error::NotConnected)),
            old(self).state is Active && old(self).unconfirmed_sends >= old(self).config.k ==> (
            *final(self) == *old(self) && (r matches Err(e) && e == Iec104Error::TooManyUnconfirmed(
                old(self).config.k,
            ))),
            old(self).state is Active && old(self).unconfirmed_sends < old(self).config.k ==> (
            r == Ok::<(u16, u16), Iec104Error>((old(self).send_seq, old(self).recv_seq)) && *final(self) == (Link {
                send_seq: ((old(self).send_seq + 1) % 32768) as u16,
                unconfirmed_sends: (old(self).unconfirmed_sends + 1) as u16,
                unconfirmed_recvs: 0,
                ..*old(self)
            })),
    {
        if !matches!(self.state, ConnectionState::Active) {
            return Err(Iec104Error::NotConnected);
        }
        if self.unconfirmed_sends >= self.config.k {
            return Err(Iec104Error::TooManyUnconfirmed(self.config.k));
        }
        let seqs = (self.send_seq, self.recv_seq);
        self.send_seq = (self.send_seq + 1) % SEQ_MODULO;
        self.unconfirmed_sends = self.unconfirmed_sends + 1;
        self.unconfirmed_recvs = 0;
        Ok(seqs)
    }

    /// An S-frame carrying the current expected receive sequence was written
    /// to the wire: the receive counter is cleared. Returns the sequence
    /// number the frame must carry.
    pub fn s_frame_sent(&mut self) -> (r: u16)
        requires
            spec_link_wf(*old(self)),
        ensures
            r == old(self).recv_seq,
            *final(self) == (Link { unconfirmed_recvs: 0, ..*old(self) }),
            spec_link_wf(*final(self)),
    {
        self.unconfirmed_recvs = 0;
        self.recv_seq
    }

    /// Acknowledge all sent frames up to and including sequence `rs`: the
    /// count of frames covered, taken modulo 32768 from the oldest
    /// unacknowledged sequence, leaves the unacknowledged window. A count
    /// beyond the window means the peer acknowledged frames never sent: the
    /// link state is left unchanged and a protocol error is returned.
    pub fn acknowledge_up_to(&mut self, rs: u16) -> (r: Result<(), Iec104Error>)
        requires
            spec_link_wf(*old(self)),
            rs < 32768,
        ensures
            spec_link_wf(*final(self)),
            spec_acked_by(*old(self), rs) <= old(self).unconfirmed_sends ==> (r is Ok && *final(self) == (Link {
                unconfirmed_sends: (old(self).unconfirmed_sends - spec_acked_by(
                    *old(self),
                    rs,
                )) as u16,
                ..*old(self)
            })),
            spec_acked_by(*old(self), rs) > old(self).unconfirmed_sends ==> (*final(self) == *old(self) && (r matches Err(e) && e is Protocol)),
    {
        let oldest: u16 = (self.send_seq + SEQ_MODULO - self.unconfirmed_sends) % SEQ_MODULO;
        let acked: u16 = (rs + SEQ_MODULO - oldest) % SEQ_MODULO;
        if acked > self.unconfirmed_sends {
            return Err(Iec104Error::protocol("Acknowledgement for frames never sent"));
        }
        self.unconfirmed_sends = self.unconfirmed_sends - acked;
        Ok(())
    }

    /// Handle a received I-frame carrying `(ss, rs)`: acknowledge sent
    /// frames up to `rs`, require `ss` to be exactly the expected receive
    /// sequence, advance it modulo 32768, and count the frame against the W
    /// threshold. Returns true when W is reached: the caller must send an
    /// S-frame (whose sequence [`Self::s_frame_sent`] already accounts for).
    pub fn handle_i_frame(&mut self, ss: u16, rs: u16) -> (r: Result<bool, Iec104Error>)
        requires
            spec_link_wf(*old(self)),
            ss < 32768,
            rs < 32768,
        ensures
            spec_link_wf(*final(self)),
            spec_acked_by(*old(self), rs) > old(self).unconfirmed_sends ==> (*final(self) == *old(self) && (r matches Err(e) && e is Protocol)),
            spec_acked_by(*old(self), rs) <= old(self).unconfirmed_sends ==> {
                let acked = (Link {
                    unconfirmed_sends: (old(self).unconfirmed_sends - spec_acked_by(
                        *old(self),
                        rs,
                    )) as u16,
                    ..*old(self)
                });
                if ss != old(self).recv_seq {
                    *final(self) == acked && (r matches Err(e) && e == (
                    Iec104Error::SequenceMismatch { expected: old(self).recv_seq, actual: ss }))
                } else if old(self).unconfirmed_recvs + 1 >= old(self).config.w {
                    *final(self) == (Link {
                        recv_seq: ((ss + 1) % 32768) as u16,
                        unconfirmed_recvs: 0,
                        ..acked
                    }) && r == Ok::<bool, Iec104Error>(true)
                } else {
                    *final(self) == (Link {
                        recv_seq: ((ss + 1) % 32768) as u16,
                        unconfirmed_recvs: (old(self).unconfirmed_recvs + 1) as u16,
                        ..acked
                    }) && r == Ok::<bool, Iec104Error>(false)
                }
            },
    {
        match self.acknowledge_up_to(rs) {
            Ok(()) => {},
            Err(e) => {
                return Err(e);
            },
        }
        if ss != self.recv_seq {
            return Err(Iec104Error::SequenceMismatch { expected: self.recv_seq, actual: ss });
        }
        self.recv_seq = (ss + 1) % SEQ_MODULO;
        self.unconfirmed_recvs = self.unconfirmed_recvs + 1;
        if self.unconfirmed_recvs >= self.config.w {
            self.unconfirmed_recvs = 0;
            return Ok(true);
        }
        Ok(false)
    }

    /// Handle a received S-frame carrying `rs`: acknowledge sent frames.
    pub fn handle_s_frame(&mut self, rs: u16) -> (r: Result<(), Iec104Error>)
        requires
            spec_link_wf(*old(self)),
            rs < 32768,
        ensures
            spec_link_wf(*final(self)),
            spec_acked_by(*old(self), rs) <= old(self).unconfirmed_sends ==> (r is Ok && *final(self) == (Link {
                unconfirmed_sends: (old(self).unconfirmed_sends - spec_acked_by(
                    *old(self),
                    rs,
                )) as u16,
                ..*old(self)
            })),
            spec_acked_by(*old(self), rs) > old(self).unconfirmed_sends ==> (*final(self) == *old(self) && (r matches Err(e) && e is Protocol)),
    {
        self.acknowledge_up_to(rs)
    }

    /// Evaluate the timers. The first flag asks for a TESTFR act (no receive
    /// activity for longer than t3); the second for an S-frame (received
    /// data unacknowledged for longer than t2).
    pub fn poll_timers(&self, ms_since_recv: u64) -> (r: (bool, bool))
        ensures
            r.0 == (ms_since_recv > self.config.t3_timeout_ms),
            r.1 == (self.unconfirmed_recvs > 0 && ms_since_recv > self.config.t2_timeout_ms),
    {
        let need_test_frame = ms_since_recv > self.config.t3_timeout_ms;
        let need_s_frame = self.unconfirmed_recvs > 0 && ms_since_recv > self.config.t2_timeout_ms;
        (need_test_frame, need_s_frame)
    }

    /// Classify a received ASDU into the event handed to the consumer: a
    /// command confirmation, an interrogation termination, a negative
    /// confirmation, parsed data points, the raw ASDU for types that carry
    /// no points, or a parse error.
    pub fn process_asdu(&self, asdu: Asdu) -> (r: Iec104Event)
        ensures
            ({
                let ccase = (asdu.header.cot is ActivationConfirm
                    || asdu.header.cot is DeactivationConfirm) && asdu.raw_data@.len() >= 3;
                let icase = asdu.header.cot is ActivationTermination
                    && asdu.header.type_id is InterrogationCommand;
                &&& (ccase ==> r == (Iec104Event::CommandConfirm {
                    ioa: spec_ioa_at(asdu.raw_data@, 0),
                    success: !asdu.header.negative,
                }))
                &&& (!ccase && icase ==> r == (Iec104Event::InterrogationComplete {
                    common_address: asdu.header.common_address,
                }))
                &&& (!ccase && !icase && asdu.header.negative ==> r is Error)
                &&& (!ccase && !icase && !asdu.header.negative ==> (match spec_parse_asdu(asdu) {
                    Some(points) => if points.len() > 0 {
                        r matches Iec104Event::DataUpdate(ps) && ps@ == points
                    } else {
                        r == Iec104Event::AsduReceived(asdu)
                    },
                    None => r is Error,
                }))
            }),
    {
        match asdu.header.cot {
            Cot::ActivationConfirm | Cot::DeactivationConfirm => {
                // Command confirmation: take the IOA of the first object
                if asdu.raw_data.len() >= 3 {
                    let ioa = crate::parser::read_ioa_le(asdu.raw_data.as_slice());
                    return Iec104Event::CommandConfirm { ioa, success: !asdu.header.negative };
                }
            },
            Cot::ActivationTermination => {
                if matches!(asdu.header.type_id, crate::type_id::TypeId::InterrogationCommand) {
                    return Iec104Event::InterrogationComplete {
                        common_address: asdu.header.common_address,
                    };
                }
            },
            _ => {},
        }

        // Negative confirmation: an error response from the peer
        if asdu.header.negative {
            let mut msg = "Negative confirmation for ".to_owned();
            msg.append(asdu.header.type_id.standard_name());
            msg.append(" (COT=");
            msg.append(asdu.header.cot.name());
            msg.append(")");
            return Iec104Event::Error(msg);
        }

        match parse_asdu(&asdu) {
            Ok(points) => {
                if points.len() > 0 {
                    Iec104Event::DataUpdate(points)
                } else {
                    Iec104Event::AsduReceived(asdu)
                }
            },
            Err(e) => {
                let mut msg = "ASDU parse error: ".to_owned();
                msg.append(e.message().as_str());
                Iec104Event::Error(msg)
            },
        }
    }
}

} // verus!
