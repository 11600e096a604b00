//! The capture-session state machine: port acquisition, handshake,
//! waiting for a start order, reset, the capture loop and termination.
//!
//! The controller's decisions live here as a step function from state and
//! event to next state and action; the surrounding program performs each
//! action (open the port, transmit, receive, poll the channel) and hands
//! the outcome back as the next event.  The controller never panics on
//! protocol input; a structurally impossible message is logged as an
//! illegal state and dropped.

use std::collections::HashMap;

use vstd::prelude::*;

use crate::ack::{compute_ack, spec_ack_walk, spec_sorted, AckOutcome};
use crate::checksum::Checksum;
use crate::cmd::{spec_cmd_body, Cmd, CmdView};
use crate::frame::Frame;
use crate::framestack::FrameStack;
use crate::logger::{Logger, Severity};
use crate::jsontext::{has_log_array, log_entries_of};
use crate::model::{Message, Project};
use crate::procs::{proc_rx_logs, spec_forwarded_entries, spec_log_views};
use crate::values::{
    spec_degrees_to_fixed, Position, Record, StepSize, BSSID, NetworkId, SSID,
};

verus! {

broadcast use vstd::std_specs::hash::group_hash_axioms;

/// Where a capture session stands, from port acquisition to shutdown.
#[derive(PartialEq, Eq, Structural, Debug, Clone, Copy)]
pub enum SessionPhase {
    /// Trying to open and configure the serial device.
    AcquiringPort,
    /// Sending the opening `StartOfTransmission`.
    HandshakeSendSot,
    /// Waiting for any valid frame answering the opening transmission.
    HandshakeAwaitAck,
    /// Sending the `Reset` that closes the handshake.
    HandshakeSendReset,
    /// Waiting for the answer to the handshake `Reset`.
    HandshakeAwaitResetAck,
    /// Polling the inbound channel for a start-capture order.
    AwaitingCaptureOrder,
    /// Sending `SetParams` with the session defaults.
    ResetSendParams,
    /// Waiting for the `Ack` answering `SetParams`.
    ResetAwaitAck,
    /// Waiting for the rover's `Ready`.
    ResetAwaitReady,
    /// Sending the controller's own `Ready`.
    ResetSendReady,
    /// Receiving and aggregating capture frames.
    Capturing,
    /// Handing the aggregated data to the persistence collaborator.
    Persisting,
    /// Announcing that the backend is no longer ready.
    Terminating,
    /// The session is over.
    Done,
}

/// What happened since the last step: the outcome of the action the
/// controller asked for, or a message from the serving layer.
#[derive(PartialEq, Debug, Clone)]
pub enum SessionEvent {
    PortOpened,
    PortFailed,
    TxCompleted(Frame),
    TxFailed,
    FrameArrived(Frame),
    RxFailed,
    MessageArrived(Message),
    NoMessage,
    PersistCompleted,
    ShutdownSent,
    ShutdownSendFailed,
}

/// What the controller asks the surrounding program to do next.
#[derive(PartialEq, Debug, Clone)]
pub enum SessionAction {
    /// Open and configure the serial device.
    OpenPort,
    /// Write this frame's bytes to the port, whole.
    Transmit(Frame),
    /// Read one frame from the port.
    Receive,
    /// Poll the inbound channel for a message.
    PollMessages,
    /// Send `BackendReady` with this readiness on the outbound channel.
    ReplyStatus(bool),
    /// Hand the aggregated capture data to the persistence collaborator.
    PersistData,
    /// Send `BackendReady(false)` on the outbound channel.
    AnnounceShutdown,
    /// The session is over; stop driving it.
    Stop,
}

/// The in-memory aggregation of scan records: lookup tables keyed by
/// network id, and per-position runs of measurements.
pub struct ScanAggregate {
    pub ssids: HashMap<u32, SSID>,
    pub bssids: HashMap<u32, BSSID>,
    pub rssi_records: HashMap<u64, Vec<Record>>,
}

/// The single map key of an angular position: pitch in the upper 32 bits,
/// yaw in the lower.  Distinct positions get distinct keys.
pub open spec fn spec_pos_key(p: Position) -> u64 {
    (p.spec_pitch() * 0x1_0000_0000 + p.spec_yaw()) as u64
}

/// Distinct positions have distinct keys.
pub proof fn lemma_pos_key_injective(a: Position, b: Position)
    ensures
        spec_pos_key(a) == spec_pos_key(b) ==> a == b,
{
    if spec_pos_key(a) == spec_pos_key(b) {
        assert(a.spec_pitch() == b.spec_pitch() && a.spec_yaw() == b.spec_yaw()) by (nonlinear_arith)
            requires
                a.spec_pitch() * 0x1_0000_0000 + a.spec_yaw() == b.spec_pitch() * 0x1_0000_0000
                    + b.spec_yaw(),
                a.spec_pitch() < 0x1_0000_0000,
                b.spec_pitch() < 0x1_0000_0000,
                a.spec_yaw() < 0x1_0000_0000,
                b.spec_yaw() < 0x1_0000_0000,
        ;
    }
}

/// The records already aggregated for a position, or none yet.
pub open spec fn spec_records_at(agg: &ScanAggregate, p: Position) -> Seq<Record> {
    if agg.rssi_records@.contains_key(spec_pos_key(p)) {
        agg.rssi_records@[spec_pos_key(p)]@
    } else {
        Seq::empty()
    }
}

impl ScanAggregate {
    /// Empty lookup tables, no measurements.
    pub fn new() -> (r: ScanAggregate)
        ensures
            r.ssids@ == Map::<u32, SSID>::empty(),
            r.bssids@ == Map::<u32, BSSID>::empty(),
            r.rssi_records@ == Map::<u64, Vec<Record>>::empty(),
    {
        ScanAggregate {
            ssids: HashMap::new(),
            bssids: HashMap::new(),
            rssi_records: HashMap::new(),
        }
    }

    /// Records the name last seen for a network id, replacing any earlier
    /// one.
    pub fn add_ssid(&mut self, id: NetworkId, ssid: SSID)
        ensures
            final(self).ssids@ == old(self).ssids@.insert(id.spec_id(), ssid),
            final(self).bssids@ == old(self).bssids@,
            final(self).rssi_records@ == old(self).rssi_records@,
    {
        self.ssids.insert(id.value(), ssid);
    }

    /// Records the hardware address last seen for a network id, replacing
    /// any earlier one.
    pub fn add_bssid(&mut self, id: NetworkId, bssid: BSSID)
        ensures
            final(self).bssids@ == old(self).bssids@.insert(id.spec_id(), bssid),
            final(self).ssids@ == old(self).ssids@,
            final(self).rssi_records@ == old(self).rssi_records@,
    {
        self.bssids.insert(id.value(), bssid);
    }

    /// Appends a run of measurements to the tally for a position,
    /// creating the tally if the position is new.
    pub fn add_records(&mut self, position: Position, records: &Vec<Record>)
        ensures
            final(self).rssi_records@.contains_key(spec_pos_key(position)),
            final(self).rssi_records@[spec_pos_key(position)]@ == spec_records_at(
                old(self),
                position,
            ) + records@,
            final(self).rssi_records@.remove(spec_pos_key(position)) == old(self).rssi_records@.remove(spec_pos_key(position)),
            final(self).ssids@ == old(self).ssids@,
            final(self).bssids@ == old(self).bssids@,
    {
        proof {
            assert(position.spec_pitch() * 0x1_0000_0000 + position.spec_yaw() < 0x1_0000_0000
                * 0x1_0000_0000) by (nonlinear_arith)
                requires
                    position.spec_pitch() < 0x1_0000_0000,
                    position.spec_yaw() < 0x1_0000_0000,
            ;
        }
        let key: u64 = (position.pitch as u64) * 0x1_0000_0000u64 + (position.yaw as u64);
        let mut tally: Vec<Record> = match self.rssi_records.remove(&key) {
            Some(v) => v,
            None => Vec::new(),
        };
        let ghost tally0 = tally@;
        let mut i: usize = 0;
        while i < records.len()
            invariant
                i <= records@.len(),
                tally@ == tally0 + records@.take(i as int),
            decreases records@.len() - i,
        {
            tally.push(records[i]);
            proof {
                assert(tally0 + records@.take(i + 1) =~= (tally0 + records@.take(i as int)).push(
                    records@[i as int],
                ));
            }
            i += 1;
        }
        proof {
            assert(records@.take(records@.len() as int) =~= records@);
        }
        self.rssi_records.insert(key, tally);
        proof {
            assert(final(self).rssi_records@.remove(spec_pos_key(position)) =~= old(self).rssi_records@.remove(spec_pos_key(position)));
        }
    }
}

/// The default scan position a session is reset to.
pub open spec fn spec_default_position() -> Position {
    Position { pitch: spec_degrees_to_fixed(10), yaw: spec_degrees_to_fixed(0) }
}

/// The default step sizes a session is reset to.
pub open spec fn spec_default_step() -> StepSize {
    StepSize {
        pitch_step: spec_degrees_to_fixed(80),
        yaw_step: spec_degrees_to_fixed(180),
    }
}

/// The whole state a capture session carries between steps.
pub struct Session {
    pub phase: SessionPhase,
    pub stack: FrameStack,
    pub aggregate: ScanAggregate,
    pub logger: Logger,
    pub project: Option<Project>,
    pub handshake_retransmits: u32,
    pub pending_ack: Option<u32>,
}

impl Session {
    /// Internal consistency: a pending acknowledgement never lies below
    /// the watermark it will advance.
    pub open spec fn inv(&self) -> bool {
        match self.pending_ack {
            Some(w) => w >= self.stack.remote_ackd_frame_id,
            None => true,
        }
    }

    /// Whether the backend reports itself ready to the serving layer:
    /// ready once the handshake is done and until the session winds down.
    pub open spec fn spec_ready(&self) -> bool {
        match self.phase {
            SessionPhase::AwaitingCaptureOrder => true,
            SessionPhase::ResetSendParams => true,
            SessionPhase::ResetAwaitAck => true,
            SessionPhase::ResetAwaitReady => true,
            SessionPhase::ResetSendReady => true,
            SessionPhase::Capturing => true,
            _ => false,
        }
    }

    /// A fresh session about to acquire the port.
    pub fn new() -> (r: Session)
        ensures
            r.inv(),
            r.phase == SessionPhase::AcquiringPort,
            r.stack.rx_frame_queue@.len() == 0,
            r.stack.tx_frame_queue@.len() == 0,
            r.stack.remote_ackd_frame_id == 0,
            r.handshake_retransmits == 0,
            r.pending_ack == None::<u32>,
            r.project == None::<Project>,
            r.logger.logs@.len() == 0,
            r.aggregate.ssids@ == Map::<u32, SSID>::empty(),
            r.aggregate.bssids@ == Map::<u32, BSSID>::empty(),
            r.aggregate.rssi_records@ == Map::<u64, Vec<Record>>::empty(),
    {
        Session {
            phase: SessionPhase::AcquiringPort,
            stack: FrameStack::new(),
            aggregate: ScanAggregate::new(),
            logger: Logger::new(),
            project: None,
            handshake_retransmits: 0,
            pending_ack: None,
        }
    }
}

/// Encodes a command whose body provably fits the 12-bit length field.
fn build_frame(cmd: Cmd, frame_id: u32) -> (r: Frame)
    requires
        spec_cmd_body(cmd@).len() <= 0xfff,
    ensures
        r@.cmd == cmd@,
        r@.frame_id == frame_id,
{
    match Frame::from_cmd(cmd, frame_id) {
        Ok(f) => f,
        Err(_) => {
            // a body within the 12-bit length field always encodes
            proof {
                assert(false);
            }
            Frame { cmd: Cmd::Reset, frame_id: 0, checksum: Checksum::from_int(0) }
        },
    }
}

/// The opening handshake frame: `StartOfTransmission` under id 0.
fn sot_frame() -> (r: Frame)
    ensures
        r@.cmd is StartOfTransmission,
        r@.frame_id == 0,
{
    build_frame(Cmd::StartOfTransmission, 0)
}

/// The handshake-closing frame: `Reset` under id 1.
fn reset_frame() -> (r: Frame)
    ensures
        r@.cmd is Reset,
        r@.frame_id == 1,
{
    build_frame(Cmd::Reset, 1)
}

/// The session-default `SetParams` frame.
fn params_frame(frame_id: u32) -> (r: Frame)
    ensures
        r@.cmd == (CmdView::SetParams {
            position: spec_default_position(),
            step_size: spec_default_step(),
            measurements_per_step: 1u8,
        }),
        r@.frame_id == frame_id,
{
    let position = Position::from_degrees(10, 0);
    let step_size = StepSize::from_degrees(80, 180);
    build_frame(Cmd::SetParams { position, step_size, measurements_per_step: 1 }, frame_id)
}

/// The controller's own `Ready` frame.
fn ready_frame(frame_id: u32) -> (r: Frame)
    ensures
        r@.cmd is Ready,
        r@.frame_id == frame_id,
{
    build_frame(Cmd::Ready, frame_id)
}

/// Whether a frame transmitted in this phase is recorded in the ledger's
/// tx history once the write succeeds.  Handshake frames are not: each
/// handshake attempt keeps its own transient history, discarded with the
/// attempt.
pub open spec fn spec_tx_recorded(phase: SessionPhase) -> bool {
    match phase {
        SessionPhase::ResetSendParams => true,
        SessionPhase::ResetSendReady => true,
        SessionPhase::Capturing => true,
        _ => false,
    }
}

/// The reply a received `RequestAck` provoked, related to the received
/// ids and watermark it was computed from: some ascending arrangement of
/// the ids was walked, and the reply and pending watermark follow the
/// walk's outcome.
pub open spec fn spec_ack_reply(
    rx_ids: Seq<u32>,
    watermark: u32,
    reply: CmdView,
    pending: Option<u32>,
) -> bool {
    exists|s: Seq<u32>|
        {
            &&& spec_sorted(s)
            &&& s.to_multiset() == rx_ids.to_multiset()
            &&& match spec_ack_walk(s, watermark) {
                AckOutcome::Acknowledge { frame_id } => reply == (CmdView::Ack { frame_id })
                    && pending == Some(frame_id),
                AckOutcome::Retransmit { frame_id_start, frame_id_end } => reply
                    == (CmdView::RequestRetransmit { frame_id_start, frame_id_end }) && pending
                    == None::<u32>,
            }
        }
}

/// The action the controller is in the middle of in a phase: what to do
/// when an event carries no new information for it.
pub open spec fn spec_is_resume(s: &Session, action: SessionAction) -> bool {
    match s.phase {
        SessionPhase::AcquiringPort => action == SessionAction::OpenPort,
        SessionPhase::HandshakeSendSot => (action matches SessionAction::Transmit(f)
            && f@.cmd is StartOfTransmission && f@.frame_id == 0),
        SessionPhase::HandshakeAwaitAck => action == SessionAction::Receive,
        SessionPhase::HandshakeSendReset => (action matches SessionAction::Transmit(f)
            && f@.cmd is Reset && f@.frame_id == 1),
        SessionPhase::HandshakeAwaitResetAck => action == SessionAction::Receive,
        SessionPhase::AwaitingCaptureOrder => action == SessionAction::PollMessages,
        SessionPhase::ResetSendParams => (action matches SessionAction::Transmit(f)
            && f@.cmd is SetParams && f@.frame_id == s.stack.local_frame_id),
        SessionPhase::ResetAwaitAck => action == SessionAction::Receive,
        SessionPhase::ResetAwaitReady => action == SessionAction::Receive,
        SessionPhase::ResetSendReady => (action matches SessionAction::Transmit(f)
            && f@.cmd is Ready && f@.frame_id == s.stack.local_frame_id),
        SessionPhase::Capturing => action == SessionAction::Receive,
        SessionPhase::Persisting => action == SessionAction::PersistData,
        SessionPhase::Terminating => action == SessionAction::AnnounceShutdown,
        SessionPhase::Done => action == SessionAction::Stop,
    }
}

impl Session {
    /// The phase's standing action, resumed after an event that carries
    /// nothing new for it.
    fn resume_action(&self) -> (action: SessionAction)
        ensures
            spec_is_resume(self, action),
    {
        match self.phase {
            SessionPhase::AcquiringPort => SessionAction::OpenPort,
            SessionPhase::HandshakeSendSot => SessionAction::Transmit(sot_frame()),
            SessionPhase::HandshakeAwaitAck => SessionAction::Receive,
            SessionPhase::HandshakeSendReset => SessionAction::Transmit(reset_frame()),
            SessionPhase::HandshakeAwaitResetAck => SessionAction::Receive,
            SessionPhase::AwaitingCaptureOrder => SessionAction::PollMessages,
            SessionPhase::ResetSendParams => SessionAction::Transmit(
                params_frame(self.stack.curr_id()),
            ),
            SessionPhase::ResetAwaitAck => SessionAction::Receive,
            SessionPhase::ResetAwaitReady => SessionAction::Receive,
            SessionPhase::ResetSendReady => SessionAction::Transmit(
                ready_frame(self.stack.curr_id()),
            ),
            SessionPhase::Capturing => SessionAction::Receive,
            SessionPhase::Persisting => SessionAction::PersistData,
            SessionPhase::Terminating => SessionAction::AnnounceShutdown,
            SessionPhase::Done => SessionAction::Stop,
        }
    }

    /// One step of the capture-session state machine: consumes what
    /// happened, updates the session, and says what to do next.
    ///
    /// Protocol steps run strictly sequentially: the caller performs the
    /// returned action, then hands its outcome back as the next event.
    /// Messages from the serving layer are answered between protocol
    /// steps and never advance the protocol, except a start-capture order
    /// arriving while one is awaited.
    pub fn step(&mut self, event: SessionEvent) -> (action: SessionAction)
        requires
            old(self).inv(),
        ensures
            final(self).inv(),
            final(self).stack.remote_ackd_frame_id >= old(self).stack.remote_ackd_frame_id,
            final(self).logger.logs@.len() >= old(self).logger.logs@.len(),
            final(self).logger.logs@.subrange(0, old(self).logger.logs@.len() as int) == old(self).logger.logs@,
            !((old(self).phase is HandshakeAwaitAck) && (event is RxFailed)) ==> final(self).handshake_retransmits == old(self).handshake_retransmits,
            (event matches SessionEvent::MessageArrived(m) ==> {
                &&& final(self).stack == old(self).stack
                &&& final(self).aggregate.ssids@ == old(self).aggregate.ssids@
                &&& final(self).aggregate.bssids@ == old(self).aggregate.bssids@
                &&& final(self).aggregate.rssi_records@ == old(self).aggregate.rssi_records@
                &&& (m matches Message::BackendStatusRequest ==> action
                    == SessionAction::ReplyStatus(old(self).spec_ready()) && final(self).phase
                    == old(self).phase && final(self).project == old(self).project)
                &&& (m matches Message::BackendReady(_) ==> final(self).phase == old(self).phase
                    && final(self).project == old(self).project && final(self).logger.logs@.len()
                    == old(self).logger.logs@.len() + 1)
                &&& (m matches Message::StartCapture(p) ==> {
                    if old(self).phase is AwaitingCaptureOrder {
                        &&& final(self).phase is ResetSendParams
                        &&& final(self).project == Some(p)
                        &&& (action matches SessionAction::Transmit(fr) && fr@.cmd == (
                        CmdView::SetParams {
                            position: spec_default_position(),
                            step_size: spec_default_step(),
                            measurements_per_step: 1u8,
                        }) && fr@.frame_id == old(self).stack.local_frame_id)
                    } else {
                        &&& final(self).phase == old(self).phase
                        &&& final(self).project == old(self).project
                    }
                })
            }),
            !(event matches SessionEvent::MessageArrived(_)) ==> match old(self).phase {
                SessionPhase::AcquiringPort => {
                    &&& (event is PortOpened ==> final(self).phase is HandshakeSendSot && (
                    action matches SessionAction::Transmit(fr) && fr@.cmd is StartOfTransmission
                        && fr@.frame_id == 0) && final(self).stack == old(self).stack)
                    &&& (event is PortFailed ==> final(self).phase is AcquiringPort && action
                        == SessionAction::OpenPort && final(self).stack == old(self).stack)
                },
                SessionPhase::HandshakeSendSot => {
                    &&& (event matches SessionEvent::TxCompleted(_) ==> final(self).phase is HandshakeAwaitAck && action == SessionAction::Receive && final(self).stack == old(self).stack)
                    &&& (event is TxFailed ==> final(self).phase is HandshakeSendSot && (
                    action matches SessionAction::Transmit(fr)
                        && fr@.cmd is StartOfTransmission) && final(self).stack == old(self).stack)
                },
                SessionPhase::HandshakeAwaitAck => {
                    &&& (event matches SessionEvent::FrameArrived(fr0) ==> final(self).phase is HandshakeSendReset && final(self).stack.rx_frame_queue@ == old(self).stack.rx_frame_queue@.push((fr0.frame_id, fr0)) && (
                    action matches SessionAction::Transmit(fr) && fr@.cmd is Reset
                        && fr@.frame_id == 1))
                    &&& (event is RxFailed ==> final(self).phase is HandshakeAwaitAck && (
                    action matches SessionAction::Transmit(fr) && fr@.cmd is StartOfTransmission)
                        && final(self).handshake_retransmits == (
                    if old(self).handshake_retransmits < 0xffff_ffffu32 {
                        (old(self).handshake_retransmits + 1) as u32
                    } else {
                        old(self).handshake_retransmits
                    }) && final(self).stack == old(self).stack)
                },
                SessionPhase::HandshakeSendReset => {
                    &&& (event matches SessionEvent::TxCompleted(_) ==> final(self).phase is HandshakeAwaitResetAck && action == SessionAction::Receive
                        && final(self).stack == old(self).stack)
                    &&& (event is TxFailed ==> final(self).phase is HandshakeSendSot && (
                    action matches SessionAction::Transmit(fr)
                        && fr@.cmd is StartOfTransmission) && final(self).stack == old(self).stack)
                },
                SessionPhase::HandshakeAwaitResetAck => {
                    &&& (event matches SessionEvent::FrameArrived(fr0) ==> final(self).phase is AwaitingCaptureOrder && final(self).stack.rx_frame_queue@ == old(self).stack.rx_frame_queue@.push((fr0.frame_id, fr0)) && action
                        == SessionAction::PollMessages)
                    &&& (event is RxFailed ==> final(self).phase is HandshakeAwaitResetAck
                        && action == SessionAction::Receive && final(self).stack == old(self).stack)
                },
                SessionPhase::AwaitingCaptureOrder => {
                    &&& (event is NoMessage ==> final(self).phase is AwaitingCaptureOrder
                        && action == SessionAction::PollMessages && final(self).stack == old(self).stack)
                },
                SessionPhase::ResetSendParams => {
                    &&& (event matches SessionEvent::TxCompleted(fr0) ==> final(self).phase is ResetAwaitAck && final(self).stack.tx_frame_queue@ == old(self).stack.tx_frame_queue@.push((fr0.frame_id, fr0)) && action
                        == SessionAction::Receive)
                    &&& (event is TxFailed ==> final(self).phase is ResetSendParams && (
                    action matches SessionAction::Transmit(fr) && fr@.cmd is SetParams)
                        && final(self).stack == old(self).stack)
                },
                SessionPhase::ResetAwaitAck => {
                    &&& (event matches SessionEvent::FrameArrived(fr0) ==> final(self).stack.rx_frame_queue@ == old(self).stack.rx_frame_queue@.push(
                        (fr0.frame_id, fr0),
                    ) && (fr0@.cmd is Ack ==> final(self).phase is ResetAwaitReady && action
                        == SessionAction::Receive) && (!(fr0@.cmd is Ack) ==> final(self).phase is ResetSendParams && (action matches SessionAction::Transmit(fr)
                        && fr@.cmd is SetParams)))
                    &&& (event is RxFailed ==> final(self).phase is ResetAwaitAck && action
                        == SessionAction::Receive && final(self).stack == old(self).stack)
                },
                SessionPhase::ResetAwaitReady => {
                    &&& (event matches SessionEvent::FrameArrived(fr0) ==> final(self).stack.rx_frame_queue@ == old(self).stack.rx_frame_queue@.push(
                        (fr0.frame_id, fr0),
                    ) && (fr0@.cmd is Ready ==> final(self).phase is ResetSendReady && (
                    action matches SessionAction::Transmit(fr) && fr@.cmd is Ready
                        && fr@.frame_id == old(self).stack.local_frame_id)) && (!(
                    fr0@.cmd is Ready) ==> final(self).phase is ResetSendParams && (
                    action matches SessionAction::Transmit(fr) && fr@.cmd is SetParams)))
                    &&& (event is RxFailed ==> final(self).phase is ResetAwaitReady && action
                        == SessionAction::Receive && final(self).stack == old(self).stack)
                },
                SessionPhase::ResetSendReady => {
                    &&& (event matches SessionEvent::TxCompleted(fr0) ==> final(self).phase is Capturing && final(self).stack.tx_frame_queue@ == old(self).stack.tx_frame_queue@.push((fr0.frame_id, fr0)) && action
                        == SessionAction::Receive)
                    &&& (event is TxFailed ==> final(self).phase is ResetSendParams && (
                    action matches SessionAction::Transmit(fr) && fr@.cmd is SetParams)
                        && final(self).stack == old(self).stack)
                },
                SessionPhase::Capturing => {
                    &&& (event matches SessionEvent::TxCompleted(fr0) ==> final(self).phase is Capturing && final(self).stack.tx_frame_queue@ == old(self).stack.tx_frame_queue@.push((fr0.frame_id, fr0)) && final(self).pending_ack
                        == None::<u32> && (old(self).pending_ack matches Some(w) ==> final(self).stack.remote_ackd_frame_id == w) && (old(self).pending_ack is None
                        ==> final(self).stack.remote_ackd_frame_id == old(self).stack.remote_ackd_frame_id) && action == SessionAction::Receive)
                    &&& (event is TxFailed ==> final(self).phase is Capturing && final(self).pending_ack == None::<u32> && final(self).stack == old(self).stack
                        && action == SessionAction::Receive)
                    &&& (event is RxFailed ==> final(self).phase is Capturing && action
                        == SessionAction::Receive && final(self).stack == old(self).stack)
                    &&& (event matches SessionEvent::FrameArrived(fr0) ==> {
                        &&& final(self).stack.rx_frame_queue@ == old(self).stack.rx_frame_queue@.push((fr0.frame_id, fr0))
                        &&& (fr0@.cmd is EndOfTransmission ==> final(self).phase is Persisting
                            && action == SessionAction::PersistData && final(self).aggregate.ssids@ == old(self).aggregate.ssids@ && final(self).aggregate.bssids@ == old(self).aggregate.bssids@ && final(self).aggregate.rssi_records@ == old(self).aggregate.rssi_records@)
                        &&& (fr0@.cmd matches CmdView::AddSSID { id, name } ==> final(self).phase is Capturing && action == SessionAction::Receive && final(self).aggregate.ssids@.contains_key(id) && final(self).aggregate.ssids@[id].spec_name() == name && final(self).aggregate.ssids@.remove(id) == old(self).aggregate.ssids@.remove(id)
                            && final(self).aggregate.bssids@ == old(self).aggregate.bssids@
                            && final(self).aggregate.rssi_records@ == old(self).aggregate.rssi_records@)
                        &&& (fr0@.cmd matches CmdView::AddBSSID { id, bssid } ==> final(self).phase is Capturing && action == SessionAction::Receive && final(self).aggregate.bssids@.contains_key(id) && final(self).aggregate.bssids@[id].spec_bytes() == bssid && final(self).aggregate.bssids@.remove(id) == old(self).aggregate.bssids@.remove(id)
                            && final(self).aggregate.ssids@ == old(self).aggregate.ssids@
                            && final(self).aggregate.rssi_records@ == old(self).aggregate.rssi_records@)
                        &&& (fr0@.cmd matches CmdView::RecordRSSI { position, record_count, records }
                            ==> final(self).phase is Capturing && action == SessionAction::Receive
                            && final(self).aggregate.rssi_records@.contains_key(
                            spec_pos_key(position),
                        ) && final(self).aggregate.rssi_records@[spec_pos_key(position)]@
                            == spec_records_at(&old(self).aggregate, position) + records && final(self).aggregate.rssi_records@.remove(spec_pos_key(position)) == old(self).aggregate.rssi_records@.remove(spec_pos_key(position)) && final(self).aggregate.ssids@ == old(self).aggregate.ssids@ && final(self).aggregate.bssids@ == old(self).aggregate.bssids@)
                        &&& (fr0@.cmd is RequestAck ==> final(self).phase is Capturing && (
                        action matches SessionAction::Transmit(reply) && spec_ack_reply(
                            crate::ack::spec_rx_ids(&final(self).stack),
                            old(self).stack.remote_ackd_frame_id,
                            reply@.cmd,
                            final(self).pending_ack,
                        ) && reply@.frame_id == old(self).stack.local_frame_id) && final(self).stack.remote_ackd_frame_id == old(self).stack.remote_ackd_frame_id)
                        &&& (fr0@.cmd matches CmdView::TransmitLogs { logs } ==> final(self).phase is Capturing && action == SessionAction::Receive && final(self).aggregate.ssids@ == old(self).aggregate.ssids@ && final(self).aggregate.bssids@ == old(self).aggregate.bssids@ && final(self).aggregate.rssi_records@ == old(self).aggregate.rssi_records@ && (
                        has_log_array(logs) ==> spec_log_views(final(self).logger.logs@)
                            == spec_log_views(old(self).logger.logs@) + spec_forwarded_entries(
                            log_entries_of(logs),
                        )) && (!has_log_array(logs) ==> final(self).logger.logs@ == old(self).logger.logs@))
                        &&& ((fr0@.cmd is StartOfTransmission || fr0@.cmd is Reset
                            || fr0@.cmd is Ready || fr0@.cmd is RequestPosition
                            || fr0@.cmd is Ack || fr0@.cmd is RequestRetransmit
                            || fr0@.cmd is SetPosition || fr0@.cmd is SetParams
                            || fr0@.cmd is TransmitPicture) ==> final(self).phase is Capturing
                            && action == SessionAction::Receive && final(self).aggregate.ssids@
                            == old(self).aggregate.ssids@ && final(self).aggregate.bssids@ == old(self).aggregate.bssids@ && final(self).aggregate.rssi_records@ == old(self).aggregate.rssi_records@)
                    })
                },
                SessionPhase::Persisting => {
                    &&& (event is PersistCompleted ==> final(self).phase is Terminating && action
                        == SessionAction::AnnounceShutdown && final(self).stack == old(self).stack)
                },
                SessionPhase::Terminating => {
                    &&& (event is ShutdownSent ==> final(self).phase is Done && action
                        == SessionAction::Stop)
                    &&& (event is ShutdownSendFailed ==> final(self).phase is Terminating
                        && action == SessionAction::AnnounceShutdown)
                },
                SessionPhase::Done => {
                    &&& final(self).phase is Done
                },
            },
    {
        match event {
            SessionEvent::MessageArrived(msg) => match msg {
                Message::BackendStatusRequest => {
                    let ready = match self.phase {
                        SessionPhase::AwaitingCaptureOrder => true,
                        SessionPhase::ResetSendParams => true,
                        SessionPhase::ResetAwaitAck => true,
                        SessionPhase::ResetAwaitReady => true,
                        SessionPhase::ResetSendReady => true,
                        SessionPhase::Capturing => true,
                        _ => false,
                    };
                    SessionAction::ReplyStatus(ready)
                },
                Message::BackendReady(_) => {
                    self.logger.log(
                        Severity::ERROR,
                        "Illegal state: a BackendReady message arrived on the controller's inbound channel; dropping it",
                    );
                    self.resume_action()
                },
                Message::StartCapture(project) => {
                    if self.phase == SessionPhase::AwaitingCaptureOrder {
                        self.project = Some(project);
                        self.phase = SessionPhase::ResetSendParams;
                        let id = self.stack.curr_id();
                        SessionAction::Transmit(params_frame(id))
                    } else {
                        self.logger.log(
                            Severity::WARNING,
                            "Ignoring a start-capture order outside the awaiting phase",
                        );
                        self.resume_action()
                    }
                },
            },
            SessionEvent::PortOpened => {
                if self.phase == SessionPhase::AcquiringPort {
                    self.logger.log(Severity::INFO, "Acquired connection to the serial port");
                    self.phase = SessionPhase::HandshakeSendSot;
                    SessionAction::Transmit(sot_frame())
                } else {
                    self.resume_action()
                }
            },
            SessionEvent::PortFailed => {
                if self.phase == SessionPhase::AcquiringPort {
                    self.logger.log(
                        Severity::ERROR,
                        "Failed to bind to the serial port; retrying shortly",
                    );
                    SessionAction::OpenPort
                } else {
                    self.resume_action()
                }
            },
            SessionEvent::TxCompleted(f) => match self.phase {
                SessionPhase::HandshakeSendSot => {
                    self.phase = SessionPhase::HandshakeAwaitAck;
                    SessionAction::Receive
                },
                SessionPhase::HandshakeSendReset => {
                    self.phase = SessionPhase::HandshakeAwaitResetAck;
                    SessionAction::Receive
                },
                SessionPhase::ResetSendParams => {
                    self.stack.append_tx_frame(f);
                    self.phase = SessionPhase::ResetAwaitAck;
                    SessionAction::Receive
                },
                SessionPhase::ResetSendReady => {
                    self.stack.append_tx_frame(f);
                    self.logger.log(Severity::INFO, "Starting capture");
                    self.phase = SessionPhase::Capturing;
                    SessionAction::Receive
                },
                SessionPhase::Capturing => {
                    self.stack.append_tx_frame(f);
                    match self.pending_ack {
                        Some(w) => {
                            self.stack.set_remote_ackd_frame_id(w);
                            self.pending_ack = None;
                        },
                        None => {},
                    }
                    SessionAction::Receive
                },
                _ => self.resume_action(),
            },
            SessionEvent::TxFailed => match self.phase {
                SessionPhase::HandshakeSendSot => {
                    self.logger.log(
                        Severity::ERROR,
                        "Failed to transmit the opening frame; trying again",
                    );
                    SessionAction::Transmit(sot_frame())
                },
                SessionPhase::HandshakeSendReset => {
                    self.logger.log(
                        Severity::ERROR,
                        "Failed to transmit the handshake reset; restarting the handshake",
                    );
                    self.phase = SessionPhase::HandshakeSendSot;
                    SessionAction::Transmit(sot_frame())
                },
                SessionPhase::ResetSendParams => {
                    self.logger.log(Severity::ERROR, "Error on reset; trying again");
                    let id = self.stack.curr_id();
                    SessionAction::Transmit(params_frame(id))
                },
                SessionPhase::ResetSendReady => {
                    self.logger.log(Severity::ERROR, "Error on reset; trying again");
                    self.phase = SessionPhase::ResetSendParams;
                    let id = self.stack.curr_id();
                    SessionAction::Transmit(params_frame(id))
                },
                SessionPhase::Capturing => {
                    self.logger.log(
                        Severity::ERROR,
                        "Failed to transmit a frame during capture; carrying on",
                    );
                    self.pending_ack = None;
                    SessionAction::Receive
                },
                _ => self.resume_action(),
            },
            SessionEvent::FrameArrived(f) => match self.phase {
                SessionPhase::HandshakeAwaitAck => {
                    self.stack.append_rx_frame(f);
                    self.phase = SessionPhase::HandshakeSendReset;
                    SessionAction::Transmit(reset_frame())
                },
                SessionPhase::HandshakeAwaitResetAck => {
                    self.stack.append_rx_frame(f);
                    self.logger.log(Severity::INFO, "Successful handshake with the rover");
                    self.phase = SessionPhase::AwaitingCaptureOrder;
                    SessionAction::PollMessages
                },
                SessionPhase::ResetAwaitAck => {
                    let is_ack = match &f.cmd {
                        Cmd::Ack { .. } => true,
                        _ => false,
                    };
                    self.stack.append_rx_frame(f);
                    if is_ack {
                        self.phase = SessionPhase::ResetAwaitReady;
                        SessionAction::Receive
                    } else {
                        self.logger.log(Severity::ERROR, "Error on reset; trying again");
                        self.phase = SessionPhase::ResetSendParams;
                        let id = self.stack.curr_id();
                        SessionAction::Transmit(params_frame(id))
                    }
                },
                SessionPhase::ResetAwaitReady => {
                    let is_ready = match &f.cmd {
                        Cmd::Ready => true,
                        _ => false,
                    };
                    self.stack.append_rx_frame(f);
                    if is_ready {
                        self.phase = SessionPhase::ResetSendReady;
                        let id = self.stack.curr_id();
                        SessionAction::Transmit(ready_frame(id))
                    } else {
                        self.logger.log(Severity::ERROR, "Error on reset; trying again");
                        self.phase = SessionPhase::ResetSendParams;
                        let id = self.stack.curr_id();
                        SessionAction::Transmit(params_frame(id))
                    }
                },
                SessionPhase::Capturing => match &f.cmd {
                    Cmd::EndOfTransmission => {
                        self.stack.append_rx_frame(f);
                        self.phase = SessionPhase::Persisting;
                        SessionAction::PersistData
                    },
                    Cmd::AddBSSID { id, bssid } => {
                        let id2 = *id;
                        let b2 = *bssid;
                        self.stack.append_rx_frame(f);
                        self.aggregate.add_bssid(id2, b2);
                        SessionAction::Receive
                    },
                    Cmd::AddSSID { id, ssid } => {
                        let id2 = *id;
                        let s2 = ssid.clone();
                        self.stack.append_rx_frame(f);
                        self.aggregate.add_ssid(id2, s2);
                        SessionAction::Receive
                    },
                    Cmd::RecordRSSI { position, record_count: _, records } => {
                        let p2 = *position;
                        let mut r2: Vec<Record> = Vec::new();
                        let mut i: usize = 0;
                        while i < records.len()
                            invariant
                                i <= records@.len(),
                                r2@ == records@.take(i as int),
                            decreases records@.len() - i,
                        {
                            r2.push(records[i]);
                            proof {
                                assert(records@.take(i + 1) =~= records@.take(i as int).push(
                                    records@[i as int],
                                ));
                            }
                            i += 1;
                        }
                        proof {
                            assert(records@.take(records@.len() as int) =~= records@);
                        }
                        self.stack.append_rx_frame(f);
                        self.aggregate.add_records(p2, &r2);
                        SessionAction::Receive
                    },
                    Cmd::RequestAck { .. } => {
                        self.stack.append_rx_frame(f);
                        let outcome = compute_ack(&self.stack);
                        let id = self.stack.curr_id();
                        match outcome {
                            AckOutcome::Acknowledge { frame_id } => {
                                self.pending_ack = Some(frame_id);
                                SessionAction::Transmit(build_frame(Cmd::Ack { frame_id }, id))
                            },
                            AckOutcome::Retransmit { frame_id_start, frame_id_end } => {
                                self.pending_ack = None;
                                self.logger.log(
                                    Severity::DEBUG,
                                    "Lost frames; requesting retransmission",
                                );
                                SessionAction::Transmit(
                                    build_frame(
                                        Cmd::RequestRetransmit { frame_id_start, frame_id_end },
                                        id,
                                    ),
                                )
                            },
                        }
                    },
                    Cmd::TransmitLogs { logs } => {
                        let text = logs.clone();
                        self.stack.append_rx_frame(f);
                        proc_rx_logs(&mut self.logger, text.as_str());
                        SessionAction::Receive
                    },
                    _ => {
                        self.stack.append_rx_frame(f);
                        SessionAction::Receive
                    },
                },
                _ => self.resume_action(),
            },
            SessionEvent::RxFailed => match self.phase {
                SessionPhase::HandshakeAwaitAck => {
                    self.logger.log(
                        Severity::ERROR,
                        "Failed to perform handshake; no answer. Trying again",
                    );
                    if self.handshake_retransmits < 0xffff_ffff {
                        self.handshake_retransmits = self.handshake_retransmits + 1;
                    }
                    SessionAction::Transmit(sot_frame())
                },
                SessionPhase::HandshakeAwaitResetAck => SessionAction::Receive,
                SessionPhase::ResetAwaitAck => SessionAction::Receive,
                SessionPhase::ResetAwaitReady => SessionAction::Receive,
                SessionPhase::Capturing => {
                    self.logger.log(
                        Severity::ERROR,
                        "Failed to receive frame; retrying shortly",
                    );
                    SessionAction::Receive
                },
                _ => self.resume_action(),
            },
            SessionEvent::NoMessage => {
                if self.phase == SessionPhase::AwaitingCaptureOrder {
                    SessionAction::PollMessages
                } else {
                    self.resume_action()
                }
            },
            SessionEvent::PersistCompleted => {
                if self.phase == SessionPhase::Persisting {
                    self.phase = SessionPhase::Terminating;
                    SessionAction::AnnounceShutdown
                } else {
                    self.resume_action()
                }
            },
            SessionEvent::ShutdownSent => {
                if self.phase == SessionPhase::Terminating {
                    self.phase = SessionPhase::Done;
                    SessionAction::Stop
                } else {
                    self.resume_action()
                }
            },
            SessionEvent::ShutdownSendFailed => {
                if self.phase == SessionPhase::Terminating {
                    self.logger.log(
                        Severity::ERROR,
                        "Failed to transmit backend status; retrying shortly",
                    );
                    SessionAction::AnnounceShutdown
                } else {
                    self.resume_action()
                }
            },
        }
    }
}

} // verus!
