//! Domain value types carried inside protocol commands: network hardware
//! addresses, network names, signal strengths, angular positions, step
//! sizes and identifiers.  Each owns a fixed or length-prefixed byte
//! encoding and its input validation.

use vstd::prelude::*;
use vstd::utf8::{decode_utf8, valid_utf8};

use crate::bytes_be::{
    byte_slice_to_u32, spec_u32_from_be_bytes, spec_u32_to_be_bytes, u32_to_be_array,
};
use crate::errors::FrameError;

verus! {

/// A network hardware address: six raw bytes, no validation beyond length.
#[derive(PartialEq, Eq, Debug, Clone, Copy)]
pub struct BSSID {
    pub bytes: [u8; 6],
}

/// A human-readable network name, decoded permissively from UTF-8; invalid
/// UTF-8 yields a fixed sentinel rather than failing.
#[derive(PartialEq, Eq, Debug)]
pub struct SSID {
    pub name: String,
}

/// A received signal strength in dBm; the valid range is -127..=0.
#[derive(PartialEq, Eq, Structural, Debug, Clone, Copy)]
pub struct RSSI {
    pub strength: i8,
}

/// An angular position as pitch and yaw in unsigned 32-bit fixed point:
/// the encoded value is the fraction of a full circle scaled by `u32::MAX`.
#[derive(PartialEq, Eq, Structural, Debug, Clone, Copy, Hash)]
pub struct Position {
    pub pitch: u32,
    pub yaw: u32,
}

/// An opaque 32-bit identifier for a scanned network, used as a map key.
#[derive(PartialEq, Eq, Structural, Debug, Clone, Copy, Hash)]
pub struct NetworkId {
    pub id: u32,
}

/// One scan measurement: which network was seen, and how strongly.
#[derive(PartialEq, Eq, Structural, Debug, Clone, Copy)]
pub struct Record {
    pub internal_id: NetworkId,
    pub rssi: RSSI,
}

/// Scan step sizes for pitch and yaw, in the same fixed-point encoding as
/// [`Position`].
#[derive(PartialEq, Eq, Structural, Debug, Clone, Copy)]
pub struct StepSize {
    pub pitch_step: u32,
    pub yaw_step: u32,
}

/// The sentinel name given to an SSID whose bytes are not valid UTF-8.
pub open spec fn invalid_utf8_sentinel() -> Seq<char> {
    "INVALID_UTF-8"@
}

/// A degree count folded into [0, 360).  Spec-level `%` is Euclidean, so
/// negative inputs wrap upward: -10 becomes 350.
pub open spec fn spec_normalize_degrees(deg: int) -> int {
    deg % 360
}

/// The fixed-point encoding of a degree count: the normalized degrees as a
/// fraction of a full circle, scaled by `u32::MAX`.
pub open spec fn spec_degrees_to_fixed(deg: int) -> u32 {
    ((deg % 360) * 0xffff_ffff / 360) as u32
}

/// The unsigned byte that carries a signed strength on the wire
/// (two's complement).
pub open spec fn spec_i8_as_byte(v: i8) -> u8 {
    if v < 0 {
        (v + 256) as u8
    } else {
        v as u8
    }
}

/// The signed strength read back from a wire byte (two's complement).
pub open spec fn spec_byte_as_i8(b: u8) -> i8 {
    if b >= 128 {
        (b - 256) as i8
    } else {
        b as i8
    }
}

/// Folds a degree count into [0, 360).
pub fn normalize_degrees(deg: i64) -> (r: u32)
    ensures
        r as int == spec_normalize_degrees(deg as int),
        r < 360,
{
    if deg >= 0 {
        (deg % 360) as u32
    } else {
        let neg_abs: u64 = (-(deg as i128)) as u64;
        let rem: u64 = neg_abs % 360;
        proof {
            let n = neg_abs as int;
            let r0 = n % 360;
            vstd::arithmetic::div_mod::lemma_fundamental_div_mod(n, 360);
            assert(n == 360 * (n / 360) + r0);
            if r0 == 0 {
                assert(-n == 360 * (-(n / 360)) + 0);
                vstd::arithmetic::div_mod::lemma_fundamental_div_mod_converse(
                    -n,
                    360,
                    -(n / 360),
                    0,
                );
            } else {
                assert(-n == 360 * (-(n / 360) - 1) + (360 - r0));
                vstd::arithmetic::div_mod::lemma_fundamental_div_mod_converse(
                    -n,
                    360,
                    -(n / 360) - 1,
                    360 - r0,
                );
            }
        }
        if rem == 0 {
            0
        } else {
            (360 - rem) as u32
        }
    }
}

/// The fixed-point wire value of a degree count, after normalization.
pub fn degrees_to_fixed(deg: i64) -> (r: u32)
    ensures
        r == spec_degrees_to_fixed(deg as int),
{
    let n = normalize_degrees(deg);
    proof {
        vstd::arithmetic::mul::lemma_mul_inequality(n as int, 359, 0xffff_ffff);
        vstd::arithmetic::div_mod::lemma_div_is_ordered(
            (n as int) * 0xffff_ffff,
            359int * 0xffff_ffff,
            360,
        );
    }
    ((n as u64) * 0xffff_ffff / 360) as u32
}

impl BSSID {
    /// The six address bytes.
    pub open spec fn spec_bytes(&self) -> Seq<u8> {
        self.bytes@
    }

    /// Wraps six raw address bytes.
    pub fn new(bytes: [u8; 6]) -> (r: Self)
        ensures
            r.spec_bytes() == bytes@,
    {
        Self { bytes }
    }

    /// Reads an address from the first six bytes of a slice; fails with
    /// `NotEnoughBytes` when fewer are available.
    pub(crate) fn parse(bytes: &[u8]) -> (r: Result<BSSID, FrameError>)
        ensures
            bytes@.len() >= 6 ==> (r matches Ok(b) && b.spec_bytes() == bytes@.subrange(0, 6)),
            bytes@.len() < 6 ==> r == Err::<BSSID, FrameError>(FrameError::NotEnoughBytes),
    {
        if bytes.len() < 6 {
            return Err(FrameError::NotEnoughBytes);
        }
        let input = [bytes[0], bytes[1], bytes[2], bytes[3], bytes[4], bytes[5]];
        proof {
            assert(input@ =~= bytes@.subrange(0, 6));
        }
        Ok(BSSID { bytes: input })
    }

    /// Reads an address from the first six bytes of a slice.
    pub fn from_bytes(bytes: &[u8]) -> (r: Result<BSSID, FrameError>)
        ensures
            bytes@.len() >= 6 ==> (r matches Ok(b) && b.spec_bytes() == bytes@.subrange(0, 6)),
            bytes@.len() < 6 ==> r == Err::<BSSID, FrameError>(FrameError::NotEnoughBytes),
    {
        BSSID::parse(bytes)
    }

    /// The six address bytes, as stored.
    pub fn as_bytes(&self) -> (r: [u8; 6])
        ensures
            r@ == self.spec_bytes(),
    {
        self.bytes
    }
}

impl SSID {
    /// The characters of the network name.
    pub open spec fn spec_name(&self) -> Seq<char> {
        self.name@
    }

    /// Wraps an already-decoded name.
    pub fn new(name: String) -> (r: Self)
        ensures
            r.spec_name() == name@,
    {
        Self { name }
    }

    /// The name as a borrowed string.
    pub fn name(&self) -> (r: &str)
        ensures
            r@ == self.spec_name(),
    {
        self.name.as_str()
    }

    /// Decodes a name from raw bytes.  Valid UTF-8 decodes to its
    /// characters; anything else yields the fixed sentinel name instead of
    /// an error.
    pub fn parse(bytes: &[u8]) -> (r: Result<SSID, FrameError>)
        ensures
            r matches Ok(s) && s.spec_name() == spec_ssid_of_bytes(bytes@),
    {
        let name: String = match utf8_from_bytes(bytes) {
            Some(s) => s.to_owned(),
            None => {
                let sentinel = "INVALID_UTF-8";
                sentinel.to_owned()
            },
        };
        Ok(SSID { name })
    }
}

/// The name that decoding the given bytes yields: their characters when
/// they are valid UTF-8, the sentinel otherwise.
pub open spec fn spec_ssid_of_bytes(bytes: Seq<u8>) -> Seq<char> {
    if valid_utf8(bytes) {
        decode_utf8(bytes)
    } else {
        invalid_utf8_sentinel()
    }
}

impl Clone for SSID {
    /// The clone carries the same name.
    fn clone(&self) -> (r: Self)
        ensures
            r.spec_name() == self.spec_name(),
    {
        SSID { name: self.name.clone() }
    }
}

impl core::str::FromStr for SSID {
    type Err = FrameError;

    fn from_str(s: &str) -> Result<Self, FrameError> {
        Ok(SSID { name: s.to_owned() })
    }
}

/// Relies on `core::str::from_utf8`: it succeeds exactly on valid UTF-8
/// input, and the resulting string holds the characters the bytes encode.
#[verifier::external_body]
pub(crate) fn utf8_from_bytes<'a>(bytes: &'a [u8]) -> (r: Option<&'a str>)
    ensures
        match r {
            Some(s) => valid_utf8(bytes@) && s@ == decode_utf8(bytes@),
            None => !valid_utf8(bytes@),
        },
{
    core::str::from_utf8(bytes).ok()
}

impl RSSI {
    /// The signed strength value.
    pub open spec fn spec_strength(&self) -> i8 {
        self.strength
    }

    /// True when the strength lies in the protocol's accepted range.
    pub open spec fn spec_valid(&self) -> bool {
        -127 <= self.spec_strength() <= 0
    }

    /// Accepts a strength in -127..=0 inclusive; anything outside is a
    /// hard construction failure.
    pub fn from_int(strength: i8) -> (r: Result<RSSI, FrameError>)
        ensures
            -127 <= strength <= 0 ==> (r matches Ok(v) && v.spec_strength() == strength),
            !(-127 <= strength <= 0) ==> r == Err::<RSSI, FrameError>(
                FrameError::RSSIValueOutOfRange,
            ),
    {
        if strength < -127 || strength > 0 {
            Err(FrameError::RSSIValueOutOfRange)
        } else {
            Ok(RSSI { strength })
        }
    }

    /// The single wire byte carrying the strength in two's complement.
    pub fn as_bytes(&self) -> (r: [u8; 1])
        ensures
            r@ == seq![spec_i8_as_byte(self.spec_strength())],
    {
        let s = self.strength;
        let b: u8 = if s < 0 {
            ((s as i16) + 256) as u8
        } else {
            s as u8
        };
        let r = [b];
        proof {
            assert(r@ =~= seq![spec_i8_as_byte(self.spec_strength())]);
        }
        r
    }
}

impl Position {
    /// The fixed-point pitch value.
    pub open spec fn spec_pitch(&self) -> u32 {
        self.pitch
    }

    /// The fixed-point yaw value.
    pub open spec fn spec_yaw(&self) -> u32 {
        self.yaw
    }

    /// Reads pitch then yaw, each big-endian, from the first eight bytes.
    pub(crate) fn parse(bytes: &[u8]) -> (r: Result<Position, FrameError>)
        ensures
            bytes@.len() >= 8 ==> (r matches Ok(p) && p.spec_pitch() == spec_u32_from_be_bytes(
                bytes@,
            ) && p.spec_yaw() == spec_u32_from_be_bytes(bytes@.subrange(4, bytes@.len() as int))),
            bytes@.len() < 8 ==> r == Err::<Position, FrameError>(FrameError::NotEnoughBytes),
    {
        if bytes.len() < 8 {
            return Err(FrameError::NotEnoughBytes);
        }
        let pitch_part = vstd::slice::slice_subrange(bytes, 0, 4);
        let yaw_part = vstd::slice::slice_subrange(bytes, 4, bytes.len());
        let pitch: u32 = match byte_slice_to_u32(pitch_part) {
            Ok(v) => v,
            Err(e) => { return Err(e) },
        };
        let yaw: u32 = match byte_slice_to_u32(yaw_part) {
            Ok(v) => v,
            Err(e) => { return Err(e) },
        };
        proof {
            assert(spec_u32_from_be_bytes(bytes@.subrange(0, 4)) == spec_u32_from_be_bytes(
                bytes@,
            ));
        }
        Ok(Position { pitch, yaw })
    }

    /// Wraps already-encoded fixed-point pitch and yaw values.
    pub fn from_int(pitch: u32, yaw: u32) -> (r: Position)
        ensures
            r.spec_pitch() == pitch,
            r.spec_yaw() == yaw,
    {
        Position { pitch, yaw }
    }

    /// Encodes whole-degree pitch and yaw: each is normalized into
    /// [0, 360) and scaled into fixed point.
    pub fn from_degrees(pitch_deg: i64, yaw_deg: i64) -> (r: Position)
        ensures
            r.spec_pitch() == spec_degrees_to_fixed(pitch_deg as int),
            r.spec_yaw() == spec_degrees_to_fixed(yaw_deg as int),
    {
        Position { pitch: degrees_to_fixed(pitch_deg), yaw: degrees_to_fixed(yaw_deg) }
    }

    /// The eight wire bytes: pitch then yaw, each big-endian.
    pub fn as_bytes(&self) -> (r: [u8; 8])
        ensures
            r@ == spec_u32_to_be_bytes(self.spec_pitch()) + spec_u32_to_be_bytes(self.spec_yaw()),
    {
        let pitch = u32_to_be_array(self.pitch);
        let yaw = u32_to_be_array(self.yaw);
        let r = [pitch[0], pitch[1], pitch[2], pitch[3], yaw[0], yaw[1], yaw[2], yaw[3]];
        proof {
            assert(r@ =~= spec_u32_to_be_bytes(self.spec_pitch()) + spec_u32_to_be_bytes(
                self.spec_yaw(),
            ));
        }
        r
    }
}

impl NetworkId {
    /// The identifier value.
    pub open spec fn spec_id(&self) -> u32 {
        self.id
    }

    /// Reads an identifier big-endian from the first four bytes.
    pub(crate) fn parse(bytes: &[u8]) -> (r: Result<NetworkId, FrameError>)
        ensures
            bytes@.len() >= 4 ==> (r matches Ok(n) && n.spec_id() == spec_u32_from_be_bytes(bytes@)),
            bytes@.len() < 4 ==> r == Err::<NetworkId, FrameError>(FrameError::NotEnoughBytes),
    {
        if bytes.len() < 4 {
            return Err(FrameError::NotEnoughBytes);
        }
        match byte_slice_to_u32(bytes) {
            Ok(id) => Ok(NetworkId { id }),
            Err(e) => Err(e),
        }
    }

    /// Wraps an identifier value.
    pub fn from_int(id: u32) -> (r: NetworkId)
        ensures
            r.spec_id() == id,
    {
        NetworkId { id }
    }

    /// The identifier value.
    pub fn value(&self) -> (r: u32)
        ensures
            r == self.spec_id(),
    {
        self.id
    }

    /// The four wire bytes, big-endian.
    pub fn as_bytes(&self) -> (r: [u8; 4])
        ensures
            r@ == spec_u32_to_be_bytes(self.spec_id()),
    {
        u32_to_be_array(self.id)
    }
}

impl Record {
    /// The identifier of the network this measurement belongs to.
    pub open spec fn spec_internal_id(&self) -> NetworkId {
        self.internal_id
    }

    /// The measured strength.
    pub open spec fn spec_rssi(&self) -> RSSI {
        self.rssi
    }

    /// True when the carried strength lies in the accepted range.
    pub open spec fn spec_valid(&self) -> bool {
        self.spec_rssi().spec_valid()
    }

    /// Pairs an identifier with a strength.
    pub fn from_components(internal_id: NetworkId, rssi: RSSI) -> (r: Record)
        ensures
            r.spec_internal_id() == internal_id,
            r.spec_rssi() == rssi,
    {
        Record { internal_id, rssi }
    }

    /// The network this measurement belongs to.
    pub fn internal_id(&self) -> (r: NetworkId)
        ensures
            r == self.spec_internal_id(),
    {
        self.internal_id
    }

    /// The five wire bytes: the identifier, then the strength byte.
    pub fn as_bytes(&self) -> (r: [u8; 5])
        ensures
            r@ == spec_record_bytes(*self),
    {
        let id = self.internal_id.as_bytes();
        let rssi = self.rssi.as_bytes();
        let r = [id[0], id[1], id[2], id[3], rssi[0]];
        proof {
            assert(r@ =~= spec_record_bytes(*self));
        }
        r
    }

    /// Reads `count` measurements, five bytes each, from the head of a
    /// slice; bytes beyond the run are ignored.
    pub(crate) fn parse_multiple(count: u32, bytes: &[u8]) -> (r: Result<Vec<Record>, FrameError>)
        ensures
            match r {
                Ok(v) => spec_parse_records(count, bytes@) == Ok::<Seq<Record>, FrameError>(v@),
                Err(e) => spec_parse_records(count, bytes@) == Err::<Seq<Record>, FrameError>(e),
            },
        decreases count,
    {
        if count == 0 {
            let v: Vec<Record> = Vec::new();
            proof {
                assert(v@ =~= Seq::<Record>::empty());
            }
            return Ok(v);
        }
        let head = match Record::parse(bytes) {
            Ok(v) => v,
            Err(e) => { return Err(e) },
        };
        let rest_slice = vstd::slice::slice_subrange(bytes, 5, bytes.len());
        let mut rest = match Record::parse_multiple(count - 1, rest_slice) {
            Ok(v) => v,
            Err(e) => { return Err(e) },
        };
        let ghost rest0 = rest@;
        let mut v: Vec<Record> = Vec::new();
        v.push(head);
        v.append(&mut rest);
        proof {
            assert(rest_slice@ == bytes@.skip(5));
            assert(v@ =~= seq![head] + rest0);
        }
        Ok(v)
    }

    /// Reads one measurement from the first five bytes: the identifier,
    /// then the strength byte, which must decode into the accepted range.
    pub(crate) fn parse(bytes: &[u8]) -> (r: Result<Record, FrameError>)
        ensures
            r == spec_parse_record(bytes@),
    {
        if bytes.len() < 5 {
            return Err(FrameError::NotEnoughBytes);
        }
        let internal_id = match NetworkId::parse(bytes) {
            Ok(v) => v,
            Err(e) => { return Err(e) },
        };
        let b = bytes[4];
        let strength: i8 = if b >= 128 {
            ((b as i16) - 256) as i8
        } else {
            b as i8
        };
        let rssi = match RSSI::from_int(strength) {
            Ok(v) => v,
            Err(e) => { return Err(e) },
        };
        Ok(Record { internal_id, rssi })
    }
}

/// The run of `count` measurements read five bytes at a time from the head
/// of `bytes`, or the first error.  Bytes beyond the run are ignored.
pub open spec fn spec_parse_records(count: u32, bytes: Seq<u8>) -> Result<Seq<Record>, FrameError>
    decreases count,
{
    if count == 0 {
        Ok(Seq::empty())
    } else {
        match spec_parse_record(bytes) {
            Err(e) => Err(e),
            Ok(rec) => match spec_parse_records(
                (count - 1) as u32,
                bytes.skip(5),
            ) {
                Err(e) => Err(e),
                Ok(rest) => Ok(seq![rec] + rest),
            },
        }
    }
}

/// The five wire bytes of one measurement.
pub open spec fn spec_record_bytes(r: Record) -> Seq<u8> {
    spec_u32_to_be_bytes(r.spec_internal_id().spec_id()) + seq![
        spec_i8_as_byte(r.spec_rssi().spec_strength()),
    ]
}

/// The measurement read from the first five bytes of `bytes`, or the error
/// mirroring [`Record::parse`].
pub open spec fn spec_parse_record(bytes: Seq<u8>) -> Result<Record, FrameError> {
    if bytes.len() < 5 {
        Err(FrameError::NotEnoughBytes)
    } else {
        let strength = spec_byte_as_i8(bytes[4]);
        if -127 <= strength <= 0 {
            Ok(
                Record {
                    internal_id: NetworkId { id: spec_u32_from_be_bytes(bytes) },
                    rssi: RSSI { strength },
                },
            )
        } else {
            Err(FrameError::RSSIValueOutOfRange)
        }
    }
}

impl StepSize {
    /// The fixed-point pitch step.
    pub open spec fn spec_pitch(&self) -> u32 {
        self.pitch_step
    }

    /// The fixed-point yaw step.
    pub open spec fn spec_yaw(&self) -> u32 {
        self.yaw_step
    }

    /// Reads pitch step then yaw step, each big-endian, from the first
    /// eight bytes.
    pub(crate) fn parse(bytes: &[u8]) -> (r: Result<StepSize, FrameError>)
        ensures
            bytes@.len() >= 8 ==> (r matches Ok(s) && s.spec_pitch() == spec_u32_from_be_bytes(
                bytes@,
            ) && s.spec_yaw() == spec_u32_from_be_bytes(bytes@.subrange(4, bytes@.len() as int))),
            bytes@.len() < 8 ==> r == Err::<StepSize, FrameError>(FrameError::NotEnoughBytes),
    {
        let pitch_step: u32 = match byte_slice_to_u32(bytes) {
            Ok(v) => v,
            Err(e) => { return Err(e) },
        };
        let rest = vstd::slice::slice_subrange(bytes, 4, bytes.len());
        let yaw_step: u32 = match byte_slice_to_u32(rest) {
            Ok(v) => v,
            Err(e) => { return Err(e) },
        };
        Ok(StepSize { pitch_step, yaw_step })
    }

    /// Wraps already-encoded fixed-point step values.
    pub fn from_pitch_yaw(pitch_step: u32, yaw_step: u32) -> (r: Result<StepSize, FrameError>)
        ensures
            r matches Ok(s) && s.spec_pitch() == pitch_step && s.spec_yaw() == yaw_step,
    {
        Ok(StepSize { pitch_step, yaw_step })
    }

    /// Encodes whole-degree steps: each is normalized into [0, 360) and
    /// scaled into fixed point.
    pub fn from_degrees(pitch_deg: i64, yaw_deg: i64) -> (r: StepSize)
        ensures
            r.spec_pitch() == spec_degrees_to_fixed(pitch_deg as int),
            r.spec_yaw() == spec_degrees_to_fixed(yaw_deg as int),
    {
        StepSize { pitch_step: degrees_to_fixed(pitch_deg), yaw_step: degrees_to_fixed(yaw_deg) }
    }

    /// The fixed-point pitch step.
    pub fn pitch(&self) -> (r: u32)
        ensures
            r == self.spec_pitch(),
    {
        self.pitch_step
    }

    /// The fixed-point yaw step.
    pub fn yaw(&self) -> (r: u32)
        ensures
            r == self.spec_yaw(),
    {
        self.yaw_step
    }

    /// The eight wire bytes: pitch step then yaw step, each big-endian.
    pub fn as_bytes(&self) -> (r: [u8; 8])
        ensures
            r@ == spec_u32_to_be_bytes(self.spec_pitch()) + spec_u32_to_be_bytes(self.spec_yaw()),
    {
        let pitch = u32_to_be_array(self.pitch_step);
        let yaw = u32_to_be_array(self.yaw_step);
        let r = [pitch[0], pitch[1], pitch[2], pitch[3], yaw[0], yaw[1], yaw[2], yaw[3]];
        proof {
            assert(r@ =~= spec_u32_to_be_bytes(self.spec_pitch()) + spec_u32_to_be_bytes(
                self.spec_yaw(),
            ));
        }
        r
    }
}

} // verus!
