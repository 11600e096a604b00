//! The command codec: a tagged union of the protocol's commands, each with
//! an opcode nibble and a per-variant wire encoding.
//!
//! Contracts are stated against [`CmdView`], the mathematical model of a
//! command, through the spec-level encoder [`spec_cmd_body`] and decoder
//! [`spec_parse_cmd_body`].

use vstd::prelude::*;
use vstd::utf8::{decode_utf8, encode_utf8, valid_utf8};

use crate::bytes_be::{
    byte_slice_to_u32, spec_u32_from_be_bytes, spec_u32_to_be_bytes, u32_to_be_array,
};
use crate::errors::FrameError;
use crate::jsontext::{is_json, json_validate};
use crate::values::{
    spec_parse_records, spec_record_bytes, spec_parse_record, spec_ssid_of_bytes,
    utf8_from_bytes, BSSID, NetworkId, Position, Record, SSID, StepSize,
};

verus! {

/// A protocol command.  Opcode 0xE is reserved: it is never produced, and
/// decoding rejects it with `InvalidCommandCode`.
#[derive(PartialEq, Debug, Clone)]
pub enum Cmd {
    StartOfTransmission,
    Reset,
    Ready,
    RequestPosition,
    Ack { frame_id: u32 },
    RequestRetransmit { frame_id_start: u32, frame_id_end: u32 },
    RequestAck { frame_id: u32 },
    AddSSID { id: NetworkId, ssid: SSID },
    AddBSSID { id: NetworkId, bssid: BSSID },
    RecordRSSI { position: Position, record_count: u32, records: Vec<Record> },
    SetPosition { position: Position },
    SetParams { position: Position, step_size: StepSize, measurements_per_step: u8 },
    TransmitPicture { position: Position, body: String },
    TransmitLogs { logs: String },
    EndOfTransmission,
}

/// The mathematical model of a command: strings become character
/// sequences, vectors become sequences.
pub enum CmdView {
    StartOfTransmission,
    Reset,
    Ready,
    RequestPosition,
    Ack { frame_id: u32 },
    RequestRetransmit { frame_id_start: u32, frame_id_end: u32 },
    RequestAck { frame_id: u32 },
    AddSSID { id: u32, name: Seq<char> },
    AddBSSID { id: u32, bssid: Seq<u8> },
    RecordRSSI { position: Position, record_count: u32, records: Seq<Record> },
    SetPosition { position: Position },
    SetParams { position: Position, step_size: StepSize, measurements_per_step: u8 },
    TransmitPicture { position: Position, body: Seq<char> },
    TransmitLogs { logs: Seq<char> },
    EndOfTransmission,
}

impl View for Cmd {
    type V = CmdView;

    open spec fn view(&self) -> CmdView {
        match self {
            Cmd::StartOfTransmission => CmdView::StartOfTransmission,
            Cmd::Reset => CmdView::Reset,
            Cmd::Ready => CmdView::Ready,
            Cmd::RequestPosition => CmdView::RequestPosition,
            Cmd::Ack { frame_id } => CmdView::Ack { frame_id: *frame_id },
            Cmd::RequestRetransmit { frame_id_start, frame_id_end } => CmdView::RequestRetransmit {
                frame_id_start: *frame_id_start,
                frame_id_end: *frame_id_end,
            },
            Cmd::RequestAck { frame_id } => CmdView::RequestAck { frame_id: *frame_id },
            Cmd::AddSSID { id, ssid } => CmdView::AddSSID {
                id: id.spec_id(),
                name: ssid.spec_name(),
            },
            Cmd::AddBSSID { id, bssid } => CmdView::AddBSSID {
                id: id.spec_id(),
                bssid: bssid.spec_bytes(),
            },
            Cmd::RecordRSSI { position, record_count, records } => CmdView::RecordRSSI {
                position: *position,
                record_count: *record_count,
                records: records@,
            },
            Cmd::SetPosition { position } => CmdView::SetPosition { position: *position },
            Cmd::SetParams { position, step_size, measurements_per_step } => CmdView::SetParams {
                position: *position,
                step_size: *step_size,
                measurements_per_step: *measurements_per_step,
            },
            Cmd::TransmitPicture { position, body } => CmdView::TransmitPicture {
                position: *position,
                body: body@,
            },
            Cmd::TransmitLogs { logs } => CmdView::TransmitLogs { logs: logs@ },
            Cmd::EndOfTransmission => CmdView::EndOfTransmission,
        }
    }
}

/// The opcode nibble of a command.
pub open spec fn spec_cmd_opcode(c: CmdView) -> u8 {
    match c {
        CmdView::StartOfTransmission => 0x0,
        CmdView::Reset => 0x1,
        CmdView::Ready => 0x2,
        CmdView::RequestPosition => 0x3,
        CmdView::Ack { .. } => 0x4,
        CmdView::RequestRetransmit { .. } => 0x5,
        CmdView::RequestAck { .. } => 0x6,
        CmdView::AddSSID { .. } => 0x7,
        CmdView::AddBSSID { .. } => 0x8,
        CmdView::RecordRSSI { .. } => 0x9,
        CmdView::SetPosition { .. } => 0xA,
        CmdView::SetParams { .. } => 0xB,
        CmdView::TransmitPicture { .. } => 0xC,
        CmdView::TransmitLogs { .. } => 0xD,
        CmdView::EndOfTransmission => 0xF,
    }
}

/// The eight wire bytes of a position: pitch then yaw, big-endian.
pub open spec fn spec_position_bytes(p: Position) -> Seq<u8> {
    spec_u32_to_be_bytes(p.spec_pitch()) + spec_u32_to_be_bytes(p.spec_yaw())
}

/// The eight wire bytes of a step size: pitch step then yaw step,
/// big-endian.
pub open spec fn spec_step_bytes(s: StepSize) -> Seq<u8> {
    spec_u32_to_be_bytes(s.spec_pitch()) + spec_u32_to_be_bytes(s.spec_yaw())
}

/// The concatenated five-byte encodings of a run of measurements.
pub open spec fn spec_records_bytes(rs: Seq<Record>) -> Seq<u8>
    decreases rs.len(),
{
    if rs.len() == 0 {
        Seq::empty()
    } else {
        spec_record_bytes(rs[0]) + spec_records_bytes(rs.drop_first())
    }
}

/// Appending one measurement appends its five bytes.
pub proof fn lemma_records_bytes_push(rs: Seq<Record>, x: Record)
    ensures
        spec_records_bytes(rs.push(x)) == spec_records_bytes(rs) + spec_record_bytes(x),
    decreases rs.len(),
{
    if rs.len() == 0 {
        assert(rs.push(x)[0] == x);
        assert(rs.push(x).drop_first() =~= Seq::<Record>::empty());
        assert(spec_records_bytes(rs.push(x)) == spec_record_bytes(x) + spec_records_bytes(
            Seq::<Record>::empty(),
        ));
        assert(spec_records_bytes(rs.push(x)) =~= spec_records_bytes(rs) + spec_record_bytes(x));
    } else {
        assert(rs.push(x)[0] == rs[0]);
        assert(rs.push(x).drop_first() =~= rs.drop_first().push(x));
        lemma_records_bytes_push(rs.drop_first(), x);
        assert(spec_records_bytes(rs.push(x)) == spec_record_bytes(rs[0]) + (spec_records_bytes(
            rs.drop_first(),
        ) + spec_record_bytes(x)));
        assert(spec_records_bytes(rs.push(x)) =~= spec_records_bytes(rs) + spec_record_bytes(x));
    }
}

/// Every measurement contributes exactly five bytes.
pub proof fn lemma_records_bytes_len(rs: Seq<Record>)
    ensures
        spec_records_bytes(rs).len() == 5 * rs.len(),
    decreases rs.len(),
{
    if rs.len() > 0 {
        lemma_records_bytes_len(rs.drop_first());
    }
}

/// The wire body of a command, per the opcode table: the bytes between the
/// six-byte header and the two checksum bytes.
pub open spec fn spec_cmd_body(c: CmdView) -> Seq<u8> {
    match c {
        CmdView::StartOfTransmission => Seq::empty(),
        CmdView::Reset => Seq::empty(),
        CmdView::Ready => Seq::empty(),
        CmdView::RequestPosition => Seq::empty(),
        CmdView::EndOfTransmission => Seq::empty(),
        CmdView::Ack { frame_id } => spec_u32_to_be_bytes(frame_id),
        CmdView::RequestAck { frame_id } => spec_u32_to_be_bytes(frame_id),
        CmdView::RequestRetransmit { frame_id_start, frame_id_end } => spec_u32_to_be_bytes(
            frame_id_start,
        ) + spec_u32_to_be_bytes(frame_id_end),
        CmdView::AddSSID { id, name } => spec_u32_to_be_bytes(id) + encode_utf8(name),
        CmdView::AddBSSID { id, bssid } => spec_u32_to_be_bytes(id) + bssid,
        CmdView::RecordRSSI { position, record_count, records } => spec_position_bytes(position)
            + spec_u32_to_be_bytes(record_count) + spec_records_bytes(records),
        CmdView::SetPosition { position } => spec_position_bytes(position),
        CmdView::SetParams { position, step_size, measurements_per_step } => spec_position_bytes(
            position,
        ) + spec_step_bytes(step_size) + seq![measurements_per_step],
        CmdView::TransmitPicture { position, body } => spec_position_bytes(position) + encode_utf8(
            body,
        ),
        CmdView::TransmitLogs { logs } => encode_utf8(logs),
    }
}

/// The position read from the first eight bytes of `data`.
pub open spec fn spec_parse_position(data: Seq<u8>) -> Position
    recommends
        data.len() >= 8,
{
    Position {
        pitch: spec_u32_from_be_bytes(data),
        yaw: spec_u32_from_be_bytes(data.subrange(4, data.len() as int)),
    }
}

/// The step size read from the first eight bytes of `data`.
pub open spec fn spec_parse_step(data: Seq<u8>) -> StepSize
    recommends
        data.len() >= 8,
{
    StepSize {
        pitch_step: spec_u32_from_be_bytes(data),
        yaw_step: spec_u32_from_be_bytes(data.subrange(4, data.len() as int)),
    }
}

/// The command read from a declared opcode, declared payload length and
/// payload bytes, or the error mirroring the per-variant length rules.
pub open spec fn spec_parse_cmd_body(op: u8, length: u16, data: Seq<u8>) -> Result<
    CmdView,
    FrameError,
> {
    if op == 0x0 || op == 0x1 || op == 0x2 || op == 0x3 || op == 0xF {
        if length != 0 {
            Err(FrameError::LengthValueOutOfRange)
        } else if op == 0x0 {
            Ok(CmdView::StartOfTransmission)
        } else if op == 0x1 {
            Ok(CmdView::Reset)
        } else if op == 0x2 {
            Ok(CmdView::Ready)
        } else if op == 0x3 {
            Ok(CmdView::RequestPosition)
        } else {
            Ok(CmdView::EndOfTransmission)
        }
    } else if op == 0x4 || op == 0x6 {
        if length != 4 {
            Err(FrameError::LengthValueOutOfRange)
        } else if data.len() < 4 {
            Err(FrameError::NotEnoughBytes)
        } else if op == 0x4 {
            Ok(CmdView::Ack { frame_id: spec_u32_from_be_bytes(data) })
        } else {
            Ok(CmdView::RequestAck { frame_id: spec_u32_from_be_bytes(data) })
        }
    } else if op == 0x5 {
        if length != 8 {
            Err(FrameError::LengthValueOutOfRange)
        } else if data.len() < 4 {
            Err(FrameError::NotEnoughBytes)
        } else if data.len() < 8 {
            Err(FrameError::NotEnoughBytes)
        } else {
            Ok(
                CmdView::RequestRetransmit {
                    frame_id_start: spec_u32_from_be_bytes(data),
                    frame_id_end: spec_u32_from_be_bytes(data.subrange(4, data.len() as int)),
                },
            )
        }
    } else if op == 0x7 {
        if !(4 <= length <= 36) {
            Err(FrameError::LengthValueOutOfRange)
        } else if data.len() < 4 {
            Err(FrameError::NotEnoughBytes)
        } else {
            let name = if length == 4 {
                Seq::<char>::empty()
            } else {
                spec_ssid_of_bytes(data.subrange(4, data.len() as int))
            };
            Ok(CmdView::AddSSID { id: spec_u32_from_be_bytes(data), name })
        }
    } else if op == 0x8 {
        if length != 10 {
            Err(FrameError::LengthValueOutOfRange)
        } else if data.len() < 4 {
            Err(FrameError::NotEnoughBytes)
        } else if data.len() < 10 {
            Err(FrameError::NotEnoughBytes)
        } else {
            Ok(
                CmdView::AddBSSID {
                    id: spec_u32_from_be_bytes(data),
                    bssid: data.subrange(4, 10),
                },
            )
        }
    } else if op == 0x9 {
        if length < 17 {
            Err(FrameError::LengthValueOutOfRange)
        } else if data.len() < 12 {
            Err(FrameError::NotEnoughBytes)
        } else {
            let count = spec_u32_from_be_bytes(data.subrange(8, 12));
            match spec_parse_records(count, data.subrange(12, data.len() as int)) {
                Err(e) => Err(e),
                Ok(records) => Ok(
                    CmdView::RecordRSSI {
                        position: spec_parse_position(data),
                        record_count: count,
                        records,
                    },
                ),
            }
        }
    } else if op == 0xA {
        if length != 8 {
            Err(FrameError::LengthValueOutOfRange)
        } else if data.len() < 8 {
            Err(FrameError::NotEnoughBytes)
        } else {
            Ok(CmdView::SetPosition { position: spec_parse_position(data) })
        }
    } else if op == 0xB {
        if length != 17 {
            Err(FrameError::LengthValueOutOfRange)
        } else if data.len() < 17 {
            Err(FrameError::NotEnoughBytes)
        } else {
            Ok(
                CmdView::SetParams {
                    position: spec_parse_position(data),
                    step_size: spec_parse_step(data.subrange(8, 16)),
                    measurements_per_step: data[16],
                },
            )
        }
    } else if op == 0xC {
        if length < 10 {
            Err(FrameError::LengthValueOutOfRange)
        } else if data.len() < 8 {
            Err(FrameError::NotEnoughBytes)
        } else {
            let tail = data.subrange(8, data.len() as int);
            if valid_utf8(tail) {
                if is_json(decode_utf8(tail)) {
                    Ok(
                        CmdView::TransmitPicture {
                            position: spec_parse_position(data),
                            body: decode_utf8(tail),
                        },
                    )
                } else {
                    Err(FrameError::InvalidJson)
                }
            } else {
                Err(FrameError::ValueOutOfRange)
            }
        }
    } else if op == 0xD {
        if length < 2 {
            Err(FrameError::LengthValueOutOfRange)
        } else if valid_utf8(data) {
            if is_json(decode_utf8(data)) {
                Ok(CmdView::TransmitLogs { logs: decode_utf8(data) })
            } else {
                Err(FrameError::InvalidJson)
            }
        } else {
            Err(FrameError::InvalidUTF8)
        }
    } else {
        Err(FrameError::InvalidCommandCode)
    }
}

/// The command read from a whole frame buffer, given the header fields
/// already extracted from it: the payload lies between the six header
/// bytes and the two checksum bytes.  Too short a buffer is rejected with
/// `NotEnoughBytes`.
pub open spec fn spec_parse_cmd(op: u8, length: u16, frame_length: u16, bytes: Seq<u8>) -> Result<
    CmdView,
    FrameError,
> {
    if bytes.len() < 6 {
        Err(FrameError::NotEnoughBytes)
    } else if 0x7 <= op <= 0xB && length > bytes.len() - 6 {
        Err(FrameError::NotEnoughBytes)
    } else if frame_length < 8 || frame_length - 2 > bytes.len() {
        Err(FrameError::NotEnoughBytes)
    } else {
        spec_parse_cmd_body(op, length, bytes.subrange(6, frame_length - 2))
    }
}

impl Cmd {
    /// Decodes a command from its opcode nibble, declared payload length
    /// and payload bytes, dispatching on the opcode per the wire table.
    pub fn parse_body(cmd_nibble: u8, length: u16, data: &[u8]) -> (r: Result<Cmd, FrameError>)
        ensures
            match r {
                Ok(c) => spec_parse_cmd_body(cmd_nibble, length, data@) == Ok::<
                    CmdView,
                    FrameError,
                >(c@),
                Err(e) => spec_parse_cmd_body(cmd_nibble, length, data@) == Err::<
                    CmdView,
                    FrameError,
                >(e),
            },
    {
        match cmd_nibble {
            0x0 | 0x1 | 0x2 | 0x3 | 0xF => {
                if length != 0 {
                    Err(FrameError::LengthValueOutOfRange)
                } else if cmd_nibble == 0x0 {
                    Ok(Cmd::StartOfTransmission)
                } else if cmd_nibble == 0x1 {
                    Ok(Cmd::Reset)
                } else if cmd_nibble == 0x2 {
                    Ok(Cmd::Ready)
                } else if cmd_nibble == 0x3 {
                    Ok(Cmd::RequestPosition)
                } else {
                    Ok(Cmd::EndOfTransmission)
                }
            },
            0x4 | 0x6 => {
                if length != 0x004 {
                    return Err(FrameError::LengthValueOutOfRange);
                }
                let id = match byte_slice_to_u32(data) {
                    Ok(v) => v,
                    Err(e) => { return Err(e) },
                };
                if cmd_nibble == 0x4 {
                    Ok(Cmd::Ack { frame_id: id })
                } else {
                    Ok(Cmd::RequestAck { frame_id: id })
                }
            },
            0x5 => {
                if length != 0x008 {
                    return Err(FrameError::LengthValueOutOfRange);
                }
                let start = match byte_slice_to_u32(data) {
                    Ok(v) => v,
                    Err(e) => { return Err(e) },
                };
                let end_slice = vstd::slice::slice_subrange(data, 4, data.len());
                let end = match byte_slice_to_u32(end_slice) {
                    Ok(v) => v,
                    Err(e) => { return Err(e) },
                };
                Ok(Cmd::RequestRetransmit { frame_id_start: start, frame_id_end: end })
            },
            0x7 => {
                if length < 0x4 || length > 0x24 {
                    return Err(FrameError::LengthValueOutOfRange);
                }
                if data.len() < 4 {
                    return Err(FrameError::NotEnoughBytes);
                }
                let id = match NetworkId::parse(data) {
                    Ok(v) => v,
                    Err(e) => { return Err(e) },
                };
                let ssid = if length == 0x4 {
                    SSID::new(String::new())
                } else {
                    match SSID::parse(vstd::slice::slice_subrange(data, 4, data.len())) {
                        Ok(v) => v,
                        Err(e) => { return Err(e) },
                    }
                };
                Ok(Cmd::AddSSID { id, ssid })
            },
            0x8 => {
                if length != 0xA {
                    return Err(FrameError::LengthValueOutOfRange);
                }
                let id = match NetworkId::parse(data) {
                    Ok(v) => v,
                    Err(e) => { return Err(e) },
                };
                let bssid = match BSSID::parse(vstd::slice::slice_subrange(data, 4, data.len())) {
                    Ok(v) => v,
                    Err(e) => { return Err(e) },
                };
                proof {
                    assert(data@.subrange(4, data@.len() as int).subrange(0, 6) =~= data@.subrange(
                        4,
                        10,
                    ));
                }
                Ok(Cmd::AddBSSID { id, bssid })
            },
            0x9 => {
                if length < 0x11 {
                    return Err(FrameError::LengthValueOutOfRange);
                }
                if data.len() < 12 {
                    return Err(FrameError::NotEnoughBytes);
                }
                let count_slice = vstd::slice::slice_subrange(data, 8, 12);
                let count = match byte_slice_to_u32(count_slice) {
                    Ok(v) => v,
                    Err(e) => { return Err(e) },
                };
                let position = match Position::parse(data) {
                    Ok(v) => v,
                    Err(e) => { return Err(e) },
                };
                let records = match Record::parse_multiple(
                    count,
                    vstd::slice::slice_subrange(data, 12, data.len()),
                ) {
                    Ok(v) => v,
                    Err(e) => { return Err(e) },
                };
                Ok(Cmd::RecordRSSI { position, record_count: count, records })
            },
            0xA => {
                if length != 8 {
                    return Err(FrameError::LengthValueOutOfRange);
                }
                if data.len() < 8 {
                    return Err(FrameError::NotEnoughBytes);
                }
                let position = match Position::parse(data) {
                    Ok(v) => v,
                    Err(e) => { return Err(e) },
                };
                Ok(Cmd::SetPosition { position })
            },
            0xB => {
                if length != 0x11 {
                    return Err(FrameError::LengthValueOutOfRange);
                }
                if data.len() < 17 {
                    return Err(FrameError::NotEnoughBytes);
                }
                let position = match Position::parse(data) {
                    Ok(v) => v,
                    Err(e) => { return Err(e) },
                };
                let step_slice = vstd::slice::slice_subrange(data, 8, 16);
                let step_size = match StepSize::parse(step_slice) {
                    Ok(v) => v,
                    Err(e) => { return Err(e) },
                };
                let measurements_per_step = data[16];
                Ok(Cmd::SetParams { position, step_size, measurements_per_step })
            },
            0xC => {
                if length < 0x00A {
                    return Err(FrameError::LengthValueOutOfRange);
                }
                if data.len() < 8 {
                    return Err(FrameError::NotEnoughBytes);
                }
                let tail = vstd::slice::slice_subrange(data, 8, data.len());
                match utf8_from_bytes(tail) {
                    Some(body_str) => {
                        if json_validate(body_str) {
                            let position = match Position::parse(data) {
                                Ok(v) => v,
                                Err(e) => { return Err(e) },
                            };
                            Ok(Cmd::TransmitPicture { position, body: body_str.to_owned() })
                        } else {
                            Err(FrameError::InvalidJson)
                        }
                    },
                    None => Err(FrameError::ValueOutOfRange),
                }
            },
            0xD => {
                if length < 0x002 {
                    return Err(FrameError::LengthValueOutOfRange);
                }
                match utf8_from_bytes(data) {
                    Some(logs_str) => {
                        if json_validate(logs_str) {
                            Ok(Cmd::TransmitLogs { logs: logs_str.to_owned() })
                        } else {
                            Err(FrameError::InvalidJson)
                        }
                    },
                    None => Err(FrameError::InvalidUTF8),
                }
            },
            _ => Err(FrameError::InvalidCommandCode),
        }
    }

    /// The wire body of the command: the bytes between the header and the
    /// checksum.  Every variant encodes; the `Result` carries no failure.
    pub fn as_bytes(&self) -> (r: Result<Vec<u8>, FrameError>)
        ensures
            (r matches Ok(v) && v@ == spec_cmd_body(self@)),
    {
        match self {
            Cmd::StartOfTransmission
            | Cmd::Reset
            | Cmd::Ready
            | Cmd::RequestPosition
            | Cmd::EndOfTransmission => {
                let v: Vec<u8> = Vec::new();
                proof {
                    assert(v@ =~= spec_cmd_body(self@));
                }
                Ok(v)
            },
            Cmd::Ack { frame_id } | Cmd::RequestAck { frame_id } => {
                let b = u32_to_be_array(*frame_id);
                let mut v: Vec<u8> = Vec::new();
                v.extend_from_slice(b.as_slice());
                proof {
                    assert(v@ =~= spec_cmd_body(self@));
                }
                Ok(v)
            },
            Cmd::RequestRetransmit { frame_id_start, frame_id_end } => {
                let start = u32_to_be_array(*frame_id_start);
                let end = u32_to_be_array(*frame_id_end);
                let mut v: Vec<u8> = Vec::new();
                v.extend_from_slice(start.as_slice());
                v.extend_from_slice(end.as_slice());
                proof {
                    assert(v@ =~= spec_cmd_body(self@));
                }
                Ok(v)
            },
            Cmd::AddSSID { id, ssid } => {
                let idb = id.as_bytes();
                let mut v: Vec<u8> = Vec::new();
                v.extend_from_slice(idb.as_slice());
                v.extend_from_slice(ssid.name().as_bytes());
                proof {
                    assert(v@ =~= spec_cmd_body(self@));
                }
                Ok(v)
            },
            Cmd::AddBSSID { id, bssid } => {
                let idb = id.as_bytes();
                let bb = bssid.as_bytes();
                let mut v: Vec<u8> = Vec::new();
                v.extend_from_slice(idb.as_slice());
                v.extend_from_slice(bb.as_slice());
                proof {
                    assert(v@ =~= spec_cmd_body(self@));
                }
                Ok(v)
            },
            Cmd::RecordRSSI { position, record_count, records } => {
                let pb = position.as_bytes();
                let cb = u32_to_be_array(*record_count);
                let mut v: Vec<u8> = Vec::new();
                v.extend_from_slice(pb.as_slice());
                v.extend_from_slice(cb.as_slice());
                let ghost prefix = v@;
                let mut i: usize = 0;
                while i < records.len()
                    invariant
                        i <= records.len(),
                        v@ == prefix + spec_records_bytes(records@.take(i as int)),
                    decreases records.len() - i,
                {
                    let rb = records[i].as_bytes();
                    v.extend_from_slice(rb.as_slice());
                    proof {
                        assert(records@.take(i + 1) =~= records@.take(i as int).push(
                            records@[i as int],
                        ));
                        lemma_records_bytes_push(records@.take(i as int), records@[i as int]);
                    }
                    i += 1;
                }
                proof {
                    assert(records@.take(records@.len() as int) =~= records@);
                    assert(v@ =~= spec_cmd_body(self@));
                }
                Ok(v)
            },
            Cmd::SetPosition { position } => {
                let pb = position.as_bytes();
                let mut v: Vec<u8> = Vec::new();
                v.extend_from_slice(pb.as_slice());
                proof {
                    assert(v@ =~= spec_cmd_body(self@));
                }
                Ok(v)
            },
            Cmd::SetParams { position, step_size, measurements_per_step } => {
                let pb = position.as_bytes();
                let sb = step_size.as_bytes();
                let mut v: Vec<u8> = Vec::new();
                v.extend_from_slice(pb.as_slice());
                v.extend_from_slice(sb.as_slice());
                v.push(*measurements_per_step);
                proof {
                    assert(v@ =~= spec_cmd_body(self@));
                }
                Ok(v)
            },
            Cmd::TransmitPicture { position, body } => {
                let pb = position.as_bytes();
                let mut v: Vec<u8> = Vec::new();
                v.extend_from_slice(pb.as_slice());
                v.extend_from_slice(body.as_str().as_bytes());
                proof {
                    assert(v@ =~= spec_cmd_body(self@));
                }
                Ok(v)
            },
            Cmd::TransmitLogs { logs } => {
                let mut v: Vec<u8> = Vec::new();
                v.extend_from_slice(logs.as_str().as_bytes());
                proof {
                    assert(v@ =~= spec_cmd_body(self@));
                }
                Ok(v)
            },
        }
    }

    /// Decodes the command carried by a whole frame buffer: the payload
    /// lies between the six header bytes and the two checksum bytes, at
    /// `bytes[6 .. frame_length - 2]`.
    pub fn parse(cmd_nibble: u8, length: u16, frame_length: u16, bytes: &[u8]) -> (r: Result<
        Cmd,
        FrameError,
    >)
        ensures
            match r {
                Ok(c) => spec_parse_cmd(cmd_nibble, length, frame_length, bytes@) == Ok::<
                    CmdView,
                    FrameError,
                >(c@),
                Err(e) => spec_parse_cmd(cmd_nibble, length, frame_length, bytes@) == Err::<
                    CmdView,
                    FrameError,
                >(e),
            },
    {
        if bytes.len() < 6 {
            return Err(FrameError::NotEnoughBytes);
        }
        if 0x7 <= cmd_nibble && cmd_nibble <= 0xB && (length as usize) > bytes.len() - 6 {
            return Err(FrameError::NotEnoughBytes);
        }
        if frame_length < 8 || (frame_length as usize) - 2 > bytes.len() {
            return Err(FrameError::NotEnoughBytes);
        }
        let data = vstd::slice::slice_subrange(bytes, 6, (frame_length as usize) - 2);
        Cmd::parse_body(cmd_nibble, length, data)
    }

    /// The opcode nibble of the command.  Every variant has one; the
    /// `Result` carries no failure.
    pub fn as_int(&self) -> (r: Result<u8, FrameError>)
        ensures
            (r matches Ok(v) && v == spec_cmd_opcode(self@)),
    {
        match self {
            Cmd::StartOfTransmission => Ok(0x00),
            Cmd::Reset => Ok(0x01),
            Cmd::Ready => Ok(0x02),
            Cmd::RequestPosition => Ok(0x03),
            Cmd::Ack { .. } => Ok(0x04),
            Cmd::RequestRetransmit { .. } => Ok(0x05),
            Cmd::RequestAck { .. } => Ok(0x06),
            Cmd::AddSSID { .. } => Ok(0x07),
            Cmd::AddBSSID { .. } => Ok(0x08),
            Cmd::RecordRSSI { .. } => Ok(0x09),
            Cmd::SetPosition { .. } => Ok(0x0A),
            Cmd::SetParams { .. } => Ok(0x0B),
            Cmd::TransmitPicture { .. } => Ok(0x0C),
            Cmd::TransmitLogs { .. } => Ok(0x0D),
            Cmd::EndOfTransmission => Ok(0x0F),
        }
    }
}

} // verus!
