//! Round-trip laws of the codec: decoding an encoded command yields the
//! command back, and decoding an encoded frame yields the frame back.

use vstd::prelude::*;
use vstd::utf8::{
    encode_scalar, encode_utf8, encode_utf8_decode_utf8, encode_utf8_valid_utf8,
};

use crate::bytes_be::{
    lemma_u16_be_round_trip, lemma_u32_be_round_trip, spec_u16_from_be_bytes,
    spec_u16_to_be_bytes, spec_u32_from_be_bytes, spec_u32_to_be_bytes,
};
use crate::checksum::crc16_of;
use crate::cmd::{
    spec_cmd_body, spec_cmd_opcode, spec_parse_cmd, spec_parse_cmd_body, spec_parse_position,
    spec_parse_step, spec_records_bytes, spec_position_bytes, spec_step_bytes, CmdView,
};
use crate::errors::FrameError;
use crate::frame::{spec_frame_bytes, spec_header_bytes, spec_parse_frame, spec_parse_header,
    FrameView};
use crate::jsontext::is_json;
use crate::values::{spec_parse_record, spec_parse_records, spec_record_bytes, spec_ssid_of_bytes, Record};

verus! {

/// The commands whose encodings survive a decode unchanged: lengths fit
/// the per-variant rules of the wire table, measurement runs carry their
/// own count and at least one in-range measurement, and JSON payloads
/// hold JSON text short enough for the 12-bit length field.
pub open spec fn spec_cmd_wire_valid(c: CmdView) -> bool {
    match c {
        CmdView::AddSSID { id, name } => encode_utf8(name).len() <= 32,
        CmdView::AddBSSID { id, bssid } => bssid.len() == 6,
        CmdView::RecordRSSI { position, record_count, records } => {
            &&& records.len() == record_count
            &&& 1 <= records.len()
            &&& 12 + 5 * records.len() <= 4095
            &&& forall|i: int| 0 <= i < records.len() ==> (#[trigger] records[i]).spec_valid()
        },
        CmdView::TransmitPicture { position, body } => {
            &&& is_json(body)
            &&& 2 <= encode_utf8(body).len()
            &&& 8 + encode_utf8(body).len() <= 4095
        },
        CmdView::TransmitLogs { logs } => {
            &&& is_json(logs)
            &&& 2 <= encode_utf8(logs).len() <= 4095
        },
        _ => true,
    }
}

/// An empty UTF-8 encoding comes only from an empty character sequence.
proof fn lemma_encode_utf8_empty(s: Seq<char>)
    ensures
        encode_utf8(s).len() == 0 ==> s.len() == 0,
{
    if s.len() > 0 {
        assert(encode_scalar(s[0] as u32).len() >= 1);
        assert(encode_utf8(s).len() >= 1);
    }
}

/// Decoding a run of encoded measurements yields the run back.
proof fn lemma_records_round_trip(records: Seq<Record>)
    requires
        forall|i: int| 0 <= i < records.len() ==> (#[trigger] records[i]).spec_valid(),
        records.len() <= 0xffff_ffff,
    ensures
        spec_parse_records(records.len() as u32, spec_records_bytes(records)) == Ok::<
            Seq<Record>,
            FrameError,
        >(records),
    decreases records.len(),
{
    if records.len() > 0 {
        let head = records[0];
        let rest = records.drop_first();
        let bytes = spec_records_bytes(records);
        assert(bytes == spec_record_bytes(head) + spec_records_bytes(rest));
        assert(spec_record_bytes(head).len() == 5);
        lemma_u32_be_round_trip(head.spec_internal_id().spec_id());
        assert(bytes[4] == spec_record_bytes(head)[4]);
        assert(spec_u32_from_be_bytes(bytes) == spec_u32_from_be_bytes(
            spec_u32_to_be_bytes(head.spec_internal_id().spec_id()),
        )) by {
            assert(forall|k: int| 0 <= k < 4 ==> bytes[k] == spec_record_bytes(head)[k]);
        }
        assert(spec_parse_record(bytes) == Ok::<Record, FrameError>(head));
        assert(bytes.skip(5) =~= spec_records_bytes(rest));
        assert(forall|i: int| 0 <= i < rest.len() ==> (#[trigger] rest[i]) == records[i + 1]);
        lemma_records_round_trip(rest);
        assert(seq![head] + rest =~= records);
    } else {
        assert(records =~= Seq::<Record>::empty());
    }
}

/// A position's eight encoded bytes decode to the position, even with
/// further payload bytes after them.
proof fn lemma_position_round_trip(p: crate::values::Position, tail: Seq<u8>)
    ensures
        spec_parse_position(spec_position_bytes(p) + tail) == p,
{
    let data = spec_position_bytes(p) + tail;
    lemma_u32_be_round_trip(p.spec_pitch());
    lemma_u32_be_round_trip(p.spec_yaw());
    assert(forall|k: int|
        0 <= k < 4 ==> data[k] == spec_u32_to_be_bytes(p.spec_pitch())[k]);
    assert(forall|k: int|
        0 <= k < 4 ==> data.subrange(4, data.len() as int)[k] == spec_u32_to_be_bytes(
            p.spec_yaw(),
        )[k]);
    assert(spec_u32_from_be_bytes(data) == p.spec_pitch());
    assert(spec_u32_from_be_bytes(data.subrange(4, data.len() as int)) == p.spec_yaw());
}

/// Decoding an encoded command under its own opcode and body length
/// yields the command back, for every wire-valid command.
pub proof fn lemma_cmd_round_trip(c: CmdView)
    requires
        spec_cmd_wire_valid(c),
    ensures
        spec_cmd_body(c).len() <= 0xfff,
        spec_parse_cmd_body(
            spec_cmd_opcode(c),
            spec_cmd_body(c).len() as u16,
            spec_cmd_body(c),
        ) == Ok::<CmdView, FrameError>(c),
{
    broadcast use encode_utf8_valid_utf8, encode_utf8_decode_utf8;

    let body = spec_cmd_body(c);
    match c {
        CmdView::StartOfTransmission
        | CmdView::Reset
        | CmdView::Ready
        | CmdView::RequestPosition
        | CmdView::EndOfTransmission => {
            assert(body.len() == 0);
        },
        CmdView::Ack { frame_id } | CmdView::RequestAck { frame_id } => {
            lemma_u32_be_round_trip(frame_id);
        },
        CmdView::RequestRetransmit { frame_id_start, frame_id_end } => {
            lemma_u32_be_round_trip(frame_id_start);
            lemma_u32_be_round_trip(frame_id_end);
            assert(forall|k: int|
                0 <= k < 4 ==> body[k] == spec_u32_to_be_bytes(frame_id_start)[k]);
            assert(body.subrange(4, body.len() as int) =~= spec_u32_to_be_bytes(frame_id_end));
        },
        CmdView::AddSSID { id, name } => {
            lemma_u32_be_round_trip(id);
            lemma_encode_utf8_empty(name);
            assert(forall|k: int| 0 <= k < 4 ==> body[k] == spec_u32_to_be_bytes(id)[k]);
            assert(body.len() == 4 + encode_utf8(name).len());
            if body.len() == 4 {
                assert(name =~= Seq::<char>::empty());
            } else {
                assert(body.subrange(4, body.len() as int) =~= encode_utf8(name));
                assert(spec_ssid_of_bytes(encode_utf8(name)) == name);
            }
        },
        CmdView::AddBSSID { id, bssid } => {
            lemma_u32_be_round_trip(id);
            assert(forall|k: int| 0 <= k < 4 ==> body[k] == spec_u32_to_be_bytes(id)[k]);
            assert(body.subrange(4, 10) =~= bssid);
        },
        CmdView::RecordRSSI { position, record_count, records } => {
            crate::cmd::lemma_records_bytes_len(records);
            assert(body.len() == 12 + 5 * records.len());
            lemma_position_round_trip(
                position,
                spec_u32_to_be_bytes(record_count) + spec_records_bytes(records),
            );
            assert(spec_position_bytes(position) + (spec_u32_to_be_bytes(record_count)
                + spec_records_bytes(records)) =~= body);
            lemma_u32_be_round_trip(record_count);
            assert(body.subrange(8, 12) =~= spec_u32_to_be_bytes(record_count));
            assert(body.subrange(12, body.len() as int) =~= spec_records_bytes(records));
            lemma_records_round_trip(records);
        },
        CmdView::SetPosition { position } => {
            lemma_position_round_trip(position, Seq::<u8>::empty());
            assert(spec_position_bytes(position) + Seq::<u8>::empty() =~= body);
        },
        CmdView::SetParams { position, step_size, measurements_per_step } => {
            assert(body.len() == 17);
            lemma_position_round_trip(
                position,
                spec_step_bytes(step_size) + seq![measurements_per_step],
            );
            assert(spec_position_bytes(position) + (spec_step_bytes(step_size) + seq![
                measurements_per_step,
            ]) =~= body);
            lemma_u32_be_round_trip(step_size.spec_pitch());
            lemma_u32_be_round_trip(step_size.spec_yaw());
            let stepdata = body.subrange(8, 16);
            assert(forall|k: int|
                0 <= k < 4 ==> stepdata[k] == spec_u32_to_be_bytes(step_size.spec_pitch())[k]);
            assert(stepdata.subrange(4, 8) =~= spec_u32_to_be_bytes(step_size.spec_yaw()));
            assert(spec_parse_step(stepdata) == step_size);
            assert(body[16] == measurements_per_step);
        },
        CmdView::TransmitPicture { position, body: text } => {
            lemma_position_round_trip(position, encode_utf8(text));
            assert(spec_position_bytes(position) + encode_utf8(text) =~= body);
            assert(body.subrange(8, body.len() as int) =~= encode_utf8(text));
        },
        CmdView::TransmitLogs { logs } => {
            assert(body == encode_utf8(logs));
        },
    }
}

/// The checksum a frame built from a wire-valid command carries: the
/// CRC-16 digest of its header and payload.
pub open spec fn spec_bound_checksum(c: CmdView, frame_id: u32) -> u16 {
    crc16_of(
        spec_header_bytes(spec_cmd_opcode(c), spec_cmd_body(c).len() as u16, frame_id)
            + spec_cmd_body(c),
    )
}

/// Decoding the encoded bytes of a frame built from a wire-valid command
/// reconstructs the identical frame and consumes exactly its bytes.
pub proof fn lemma_frame_round_trip(c: CmdView, frame_id: u32)
    requires
        spec_cmd_wire_valid(c),
    ensures
        ({
            let f = FrameView { cmd: c, frame_id, checksum: spec_bound_checksum(c, frame_id) };
            spec_parse_frame(spec_frame_bytes(f)) == Ok::<(FrameView, u16), FrameError>(
                (f, (spec_cmd_body(c).len() + 8) as u16),
            )
        }),
{
    lemma_cmd_round_trip(c);
    let op = spec_cmd_opcode(c);
    let body = spec_cmd_body(c);
    let len = body.len() as u16;
    let f = FrameView { cmd: c, frame_id, checksum: spec_bound_checksum(c, frame_id) };
    let header = spec_header_bytes(op, len, frame_id);
    let bytes = spec_frame_bytes(f);
    assert(op < 16);
    assert(bytes =~= header + body + spec_u16_to_be_bytes(f.checksum));
    assert(bytes.len() == 8 + body.len());

    // header extraction
    let b0 = ((op << 4) | (((len & 0x0f00) >> 8) as u8)) as u8;
    let b1 = (len & 0x00ff) as u8;
    assert(bytes[0] == b0);
    assert(bytes[1] == b1);
    assert(((b0 & 0xf0) >> 4) == op) by (bit_vector)
        requires
            op < 16,
            b0 == ((op << 4) | (((len & 0x0f00) >> 8) as u8)) as u8,
    ;
    assert(((((b0 as u16) << 8) | (b1 as u16)) & 0x0fff) == len) by (bit_vector)
        requires
            len < 4096,
            b0 == ((op << 4) | (((len & 0x0f00) >> 8) as u8)) as u8,
            b1 == (len & 0x00ff) as u8,
    ;
    assert(spec_u16_from_be_bytes(bytes) == (((b0 as u16) << 8) | (b1 as u16)) as u16);
    lemma_u32_be_round_trip(frame_id);
    assert(forall|k: int|
        0 <= k < 4 ==> bytes.subrange(2, bytes.len() as int)[k] == spec_u32_to_be_bytes(
            frame_id,
        )[k]);
    assert(spec_u32_from_be_bytes(bytes.subrange(2, bytes.len() as int)) == frame_id);
    assert(spec_parse_header(bytes) == Ok::<(u8, u16, u16, u32), FrameError>(
        (op, len, (len + 8) as u16, frame_id),
    ));

    // command extraction
    let flen = (len + 8) as u16;
    assert(bytes.subrange(6, flen - 2) =~= body);
    assert(spec_parse_cmd(op, len, flen, bytes) == Ok::<CmdView, FrameError>(c));

    // checksum validation
    let consumed = 6 + len as int;
    assert(bytes.len() == consumed + 2);
    assert(bytes.subrange(consumed, bytes.len() as int) =~= spec_u16_to_be_bytes(f.checksum));
    lemma_u16_be_round_trip(f.checksum);
    assert(spec_u16_from_be_bytes(bytes.subrange(consumed, bytes.len() as int)) == f.checksum);
    assert(bytes.subrange(0, consumed) =~= header + body);
    assert(crc16_of(bytes.subrange(0, consumed)) == f.checksum);
}

} // verus!
