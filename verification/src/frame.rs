//! The wire envelope: header, command payload and checksum.
//!
//! Byte 0 carries the opcode nibble in its top four bits and the top four
//! bits of a 12-bit payload length; byte 1 carries the low eight length
//! bits; bytes 2..=5 carry the frame id big-endian; the payload follows;
//! the final two bytes carry a CRC-16 digest of everything before them.

use vstd::prelude::*;

use crate::bytes_be::{
    byte_slice_to_u16, byte_slice_to_u32, spec_u16_from_be_bytes, spec_u16_to_be_bytes,
    spec_u32_from_be_bytes, spec_u32_to_be_bytes, u32_to_be_array,
};
use crate::checksum::{crc16_of, Checksum};
use crate::cmd::{spec_cmd_body, spec_cmd_opcode, spec_parse_cmd, Cmd, CmdView};
use crate::errors::FrameError;

verus! {

/// The number of bytes in a frame header: one opcode/length byte, one
/// length byte, four frame-id bytes.
pub const FRAME_HEADER_SIZE: usize = 6;

/// The number of checksum bytes closing a frame.
pub const CHECKSUM_SIZE: usize = 2;

/// The wire envelope around one command: the command, the frame id it was
/// sent under, and the checksum binding header and payload.  Immutable
/// once constructed, whether by decoding or by encoding from a command.
#[derive(PartialEq, Debug, Clone)]
pub struct Frame {
    pub cmd: Cmd,
    pub frame_id: u32,
    pub checksum: Checksum,
}

/// The mathematical model of a frame.
pub struct FrameView {
    pub cmd: CmdView,
    pub frame_id: u32,
    pub checksum: u16,
}

impl View for Frame {
    type V = FrameView;

    open spec fn view(&self) -> FrameView {
        FrameView {
            cmd: self.cmd@,
            frame_id: self.frame_id,
            checksum: self.checksum.spec_value(),
        }
    }
}

/// The six header bytes for an opcode nibble, a 12-bit payload length and
/// a frame id.
pub open spec fn spec_header_bytes(op: u8, length: u16, frame_id: u32) -> Seq<u8>
    recommends
        op < 16,
        length < 4096,
{
    seq![
        ((op << 4) | (((length & 0x0f00) >> 8) as u8)) as u8,
        (length & 0x00ff) as u8,
    ] + spec_u32_to_be_bytes(frame_id)
}

/// The full wire bytes of a frame: header, payload, checksum.
pub open spec fn spec_frame_bytes(f: FrameView) -> Seq<u8> {
    let body = spec_cmd_body(f.cmd);
    spec_header_bytes(spec_cmd_opcode(f.cmd), body.len() as u16, f.frame_id) + body
        + spec_u16_to_be_bytes(f.checksum)
}

/// The header fields read from the head of a buffer: the opcode nibble,
/// the declared payload length, the total frame length derived from it,
/// and the frame id.
pub open spec fn spec_parse_header(bytes: Seq<u8>) -> Result<(u8, u16, u16, u32), FrameError> {
    if bytes.len() == 0 {
        Err(FrameError::EmptyFrameError)
    } else if bytes.len() < 6 {
        Err(FrameError::NotEnoughBytes)
    } else {
        let op = ((bytes[0] & 0xf0) >> 4) as u8;
        let length = (spec_u16_from_be_bytes(bytes) & 0x0fff) as u16;
        Ok(
            (
                op,
                length,
                (length + 8) as u16,
                spec_u32_from_be_bytes(bytes.subrange(2, bytes.len() as int)),
            ),
        )
    }
}

/// The frame read from the head of a buffer together with the number of
/// bytes it occupies, or the first error: header errors, then command
/// errors, then a checksum mismatch.
pub open spec fn spec_parse_frame(bytes: Seq<u8>) -> Result<(FrameView, u16), FrameError> {
    match spec_parse_header(bytes) {
        Err(e) => Err(e),
        Ok((op, length, frame_length, frame_id)) => match spec_parse_cmd(
            op,
            length,
            frame_length,
            bytes,
        ) {
            Err(e) => Err(e),
            Ok(cmd) => {
                let consumed = 6 + length as int;
                if bytes.len() < consumed + 2 {
                    Err(FrameError::NotEnoughBytes)
                } else {
                    let ck = spec_u16_from_be_bytes(bytes.subrange(consumed, bytes.len() as int));
                    if crc16_of(bytes.subrange(0, consumed)) == ck {
                        Ok((FrameView { cmd, frame_id, checksum: ck }, (consumed + 2) as u16))
                    } else {
                        Err(FrameError::InvalidChecksum)
                    }
                }
            },
        },
    }
}

impl Frame {
    /// Extracts the opcode nibble, the 12-bit declared length, the derived
    /// total frame length and the frame id from the first six bytes.
    pub fn parse_header(bytes: &[u8]) -> (r: Result<(u8, u16, u16, u32), FrameError>)
        ensures
            r == spec_parse_header(bytes@),
    {
        if bytes.len() == 0 {
            return Err(FrameError::EmptyFrameError);
        }
        if bytes.len() < FRAME_HEADER_SIZE {
            return Err(FrameError::NotEnoughBytes);
        }
        let cmd_nibble: u8 = (bytes[0] & 0xF0) >> 4;
        let raw: u16 = ((bytes[0] as u16) << 8) | (bytes[1] as u16);
        let length: u16 = raw & 0x0FFF;
        proof {
            assert(raw & 0x0fff <= 0x0fff) by (bit_vector);
        }
        let frame_length: u16 = length + 8;
        let id_slice = vstd::slice::slice_subrange(bytes, 2, bytes.len());
        let frame_id: u32 = match byte_slice_to_u32(id_slice) {
            Ok(v) => v,
            Err(e) => { return Err(e) },
        };
        Ok((cmd_nibble, length, frame_length, frame_id))
    }

    /// Decodes a frame from the head of a buffer, validating the checksum
    /// over header and payload before accepting the command.  Returns the
    /// frame and how many bytes it occupied; trailing bytes are ignored.
    pub fn parse(bytes: &[u8]) -> (r: Result<(Frame, u16), FrameError>)
        ensures
            match r {
                Ok(p) => spec_parse_frame(bytes@) == Ok::<(FrameView, u16), FrameError>(
                    (p.0@, p.1),
                ),
                Err(e) => spec_parse_frame(bytes@) == Err::<(FrameView, u16), FrameError>(e),
            },
    {
        let (cmd_nibble, length, frame_length, frame_id) = match Self::parse_header(bytes) {
            Ok(t) => t,
            Err(e) => { return Err(e) },
        };
        let cmd = match Cmd::parse(cmd_nibble, length, frame_length, bytes) {
            Ok(c) => c,
            Err(e) => { return Err(e) },
        };
        let consumed: usize = FRAME_HEADER_SIZE + length as usize;
        if bytes.len() < consumed + CHECKSUM_SIZE {
            return Err(FrameError::NotEnoughBytes);
        }
        let ck_slice = vstd::slice::slice_subrange(bytes, consumed, bytes.len());
        let ck = match byte_slice_to_u16(ck_slice) {
            Ok(v) => v,
            Err(e) => { return Err(e) },
        };
        let checksum = Checksum::from_int(ck);
        let head = vstd::slice::slice_subrange(bytes, 0, consumed);
        if checksum.check(head) {
            Ok((Frame { cmd, frame_id, checksum }, (consumed + CHECKSUM_SIZE) as u16))
        } else {
            Err(FrameError::InvalidChecksum)
        }
    }

    /// The six header bytes for a command's opcode, its payload length and
    /// a frame id.
    fn header_as_bytes(cmd_nibble: u8, length: u16, frame_id: u32) -> (r: [u8; 6])
        requires
            cmd_nibble < 16,
            length < 4096,
        ensures
            r@ == spec_header_bytes(cmd_nibble, length, frame_id),
    {
        let f = u32_to_be_array(frame_id);
        let b0: u8 = (cmd_nibble << 4) | (((length & 0x0F00) >> 8) as u8);
        let r = [b0, (length & 0x00FF) as u8, f[0], f[1], f[2], f[3]];
        proof {
            assert(r@ =~= spec_header_bytes(cmd_nibble, length, frame_id));
        }
        r
    }

    /// Encodes a command under a frame id, computing the checksum over the
    /// assembled header and payload.  A payload longer than the 12-bit
    /// length field can carry is rejected with `LengthValueOutOfRange`.
    pub fn from_cmd(cmd: Cmd, frame_id: u32) -> (r: Result<Frame, FrameError>)
        ensures
            spec_cmd_body(cmd@).len() <= 0xfff ==> (r matches Ok(f) && f@.cmd == cmd@
                && f@.frame_id == frame_id && f@.checksum == crc16_of(
                spec_header_bytes(
                    spec_cmd_opcode(cmd@),
                    spec_cmd_body(cmd@).len() as u16,
                    frame_id,
                ) + spec_cmd_body(cmd@),
            )),
            spec_cmd_body(cmd@).len() > 0xfff ==> r == Err::<Frame, FrameError>(
                FrameError::LengthValueOutOfRange,
            ),
    {
        let mut body: Vec<u8> = match cmd.as_bytes() {
            Ok(v) => v,
            Err(e) => { return Err(e) },
        };
        if body.len() > 0xfff {
            return Err(FrameError::LengthValueOutOfRange);
        }
        let opcode = match cmd.as_int() {
            Ok(v) => v,
            Err(e) => { return Err(e) },
        };
        let header = Self::header_as_bytes(opcode, body.len() as u16, frame_id);
        let mut assembled: Vec<u8> = Vec::new();
        assembled.extend_from_slice(header.as_slice());
        assembled.append(&mut body);
        proof {
            assert(assembled@ =~= spec_header_bytes(
                spec_cmd_opcode(cmd@),
                spec_cmd_body(cmd@).len() as u16,
                frame_id,
            ) + spec_cmd_body(cmd@));
        }
        let checksum = Checksum::from_bytes(assembled.as_slice());
        Ok(Frame { cmd, frame_id, checksum })
    }

    /// Assembles a frame from parts already in hand, without recomputing
    /// or validating the checksum.
    pub fn from_components(cmd: Cmd, frame_id: u32, checksum: Checksum) -> (r: Result<
        Frame,
        FrameError,
    >)
        ensures
            (r matches Ok(f) && f@.cmd == cmd@ && f@.frame_id == frame_id && f@.checksum
                == checksum.spec_value()),
    {
        Ok(Frame { cmd, frame_id, checksum })
    }

    /// The full wire bytes: header, payload, checksum.  A payload longer
    /// than the 12-bit length field can carry is rejected with
    /// `LengthValueOutOfRange`.
    pub fn as_bytes(&self) -> (r: Result<Vec<u8>, FrameError>)
        ensures
            spec_cmd_body(self@.cmd).len() <= 0xfff ==> (r matches Ok(v) && v@ == spec_frame_bytes(
                self@,
            )),
            spec_cmd_body(self@.cmd).len() > 0xfff ==> r == Err::<Vec<u8>, FrameError>(
                FrameError::LengthValueOutOfRange,
            ),
    {
        let mut body: Vec<u8> = match self.cmd.as_bytes() {
            Ok(v) => v,
            Err(e) => { return Err(e) },
        };
        if body.len() > 0xfff {
            return Err(FrameError::LengthValueOutOfRange);
        }
        let opcode = match self.cmd.as_int() {
            Ok(v) => v,
            Err(e) => { return Err(e) },
        };
        let header = Self::header_as_bytes(opcode, body.len() as u16, self.frame_id);
        let ck = self.checksum.as_bytes();
        let mut result: Vec<u8> = Vec::new();
        result.extend_from_slice(header.as_slice());
        result.append(&mut body);
        result.extend_from_slice(ck.as_slice());
        proof {
            assert(result@ =~= spec_frame_bytes(self@));
        }
        Ok(result)
    }

    /// The command this frame carries.
    pub fn get_cmd(&self) -> (r: &Cmd)
        ensures
            r@ == self@.cmd,
    {
        &self.cmd
    }
}

} // verus!
