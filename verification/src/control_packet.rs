//! Length-prefixed control packets exchanged between a pairing test parent and
//! its helper processes, and the cursor that decodes their fixed layouts.

use vstd::prelude::*;
use vstd::arithmetic::div_mod::lemma_mod_breakdown;
use vstd::arithmetic::div_mod::lemma_small_mod;

verus! {

/// Largest control packet, counted as the kind byte plus the payload.
pub const MAX_CONTROL_PACKET: usize = 32768;

/// `256` raised to `width`.
pub open spec fn pow256(width: nat) -> nat
    decreases width,
{
    if width == 0 { 1 } else { 256 * pow256((width - 1) as nat) }
}

/// Unsigned big-endian value of a byte string.
pub open spec fn be_value(bytes: Seq<u8>) -> nat
    decreases bytes.len(),
{
    if bytes.len() == 0 { 0 } else { be_value(bytes.drop_last()) * 256 + bytes.last() as nat }
}

/// The low `width` bytes of `value`, most significant first.
pub open spec fn be_bytes(value: nat, width: nat) -> Seq<u8>
    decreases width,
{
    if width == 0 {
        Seq::empty()
    } else {
        be_bytes(value / 256, (width - 1) as nat).push((value % 256) as u8)
    }
}

proof fn lemma_pow256_positive(width: nat)
    ensures
        pow256(width) > 0,
    decreases width,
{
    if width > 0 {
        lemma_pow256_positive((width - 1) as nat);
    }
}

proof fn lemma_pow256_monotone(low: nat, high: nat)
    requires
        low <= high,
    ensures
        pow256(low) <= pow256(high),
    decreases high,
{
    if low < high {
        lemma_pow256_monotone(low, (high - 1) as nat);
        lemma_pow256_positive((high - 1) as nat);
    }
}

proof fn lemma_be_bytes_len(value: nat, width: nat)
    ensures
        be_bytes(value, width).len() == width,
    decreases width,
{
    if width > 0 {
        lemma_be_bytes_len(value / 256, (width - 1) as nat);
    }
}

proof fn lemma_be_value_bound(bytes: Seq<u8>)
    ensures
        be_value(bytes) < pow256(bytes.len()),
    decreases bytes.len(),
{
    if bytes.len() > 0 {
        let rest = bytes.drop_last();
        lemma_be_value_bound(rest);
        let v = be_value(rest);
        let p = pow256(rest.len());
        let b = bytes.last();
        assert(v * 256 + b < 256 * p) by (nonlinear_arith)
            requires
                v < p,
                0 <= b < 256,
        ;
    }
}

/// Reading back the big-endian bytes of a value gives the value modulo the width.
pub proof fn law_be_round_trip(value: nat, width: nat)
    ensures
        be_value(be_bytes(value, width)) == value % pow256(width),
        be_bytes(value, width).len() == width,
    decreases width,
{
    lemma_be_bytes_len(value, width);
    if width == 0 {
    } else {
        let rest = (width - 1) as nat;
        law_be_round_trip(value / 256, rest);
        let bytes = be_bytes(value, width);
        assert(bytes.drop_last() =~= be_bytes(value / 256, rest));
        lemma_pow256_positive(rest);
        lemma_mod_breakdown(value as int, 256, pow256(rest) as int);
        assert(256 * ((value / 256) % pow256(rest)) + value % 256
            == ((value / 256) % pow256(rest)) * 256 + value % 256) by (nonlinear_arith);
    }
}

/// Appends the low `width` bytes of `value`, most significant first.
pub fn push_be(out: &mut Vec<u8>, value: u64, width: usize)
    requires
        width <= 8,
    ensures
        final(out)@ == old(out)@ + be_bytes(value as nat, width as nat),
    decreases width,
{
    if width > 0 {
        push_be(out, value / 256, width - 1);
        out.push((value % 256) as u8);
        assert(out@ =~= old(out)@ + be_bytes(value as nat, width as nat));
    }
}


/// Big-endian value of at most eight bytes.
pub fn read_be(bytes: &[u8]) -> (value: u64)
    requires
        bytes@.len() <= 8,
    ensures
        value as nat == be_value(bytes@),
{
    proof {
        reveal_with_fuel(pow256, 9);
    }
    let mut value: u64 = 0;
    let mut index: usize = 0;
    while index < bytes.len()
        invariant
            0 <= index <= bytes@.len() <= 8,
            value as nat == be_value(bytes@.subrange(0, index as int)),
            pow256(8) == 0x1_0000_0000_0000_0000,
        decreases bytes@.len() - index,
    {
        let ghost prefix = bytes@.subrange(0, index as int);
        let ghost next = bytes@.subrange(0, index + 1);
        proof {
            assert(next.drop_last() =~= prefix);
            lemma_be_value_bound(prefix);
            lemma_pow256_monotone((index + 1) as nat, 8);
            lemma_be_value_bound(next);
        }
        assert(value * 256 + bytes[index as int] == be_value(next));
        value = value * 256 + bytes[index] as u64;
        index = index + 1;
    }
    assert(bytes@.subrange(0, index as int) =~= bytes@);
    value
}

/// Big-endian value of at most sixteen bytes.
pub fn read_be_wide(bytes: &[u8]) -> (value: u128)
    requires
        bytes@.len() <= 16,
    ensures
        value as nat == be_value(bytes@),
{
    proof {
        reveal_with_fuel(pow256, 17);
    }
    let mut value: u128 = 0;
    let mut index: usize = 0;
    while index < bytes.len()
        invariant
            0 <= index <= bytes@.len() <= 16,
            value as nat == be_value(bytes@.subrange(0, index as int)),
            pow256(16) == 0x1_0000_0000_0000_0000_0000_0000_0000_0000,
        decreases bytes@.len() - index,
    {
        let ghost prefix = bytes@.subrange(0, index as int);
        let ghost next = bytes@.subrange(0, index + 1);
        proof {
            assert(next.drop_last() =~= prefix);
            lemma_be_value_bound(prefix);
            lemma_pow256_monotone((index + 1) as nat, 16);
            lemma_be_value_bound(next);
        }
        assert(value * 256 + bytes[index as int] == be_value(next));
        value = value * 256 + bytes[index] as u128;
        index = index + 1;
    }
    assert(bytes@.subrange(0, index as int) =~= bytes@);
    value
}

/// Why a control packet could not be framed or read.
#[derive(Clone, Copy, Debug, PartialEq, Eq, Structural)]
pub enum ControlPacketError {
    /// The kind byte plus payload would exceed `MAX_CONTROL_PACKET`.
    TooLarge,
    /// The declared length is zero or exceeds `MAX_CONTROL_PACKET`.
    InvalidSize,
    /// The kind byte is not the one the reader waits for.
    UnexpectedKind,
    /// The input ended before the declared packet did.
    Truncated,
}

/// Description of each control packet failure.
pub open spec fn control_packet_message(error: ControlPacketError) -> &'static str {
    match error {
        ControlPacketError::TooLarge => "control packet too large",
        ControlPacketError::InvalidSize => "invalid control packet size",
        ControlPacketError::UnexpectedKind => "unexpected control packet kind",
        ControlPacketError::Truncated => "control packet ended early",
    }
}

impl ControlPacketError {
    /// Human-readable description of the failure.
    pub fn message(&self) -> (text: &'static str)
        ensures
            text@ == control_packet_message(*self)@,
    {
        match self {
            ControlPacketError::TooLarge => "control packet too large",
            ControlPacketError::InvalidSize => "invalid control packet size",
            ControlPacketError::UnexpectedKind => "unexpected control packet kind",
            ControlPacketError::Truncated => "control packet ended early",
        }
    }
}

/// Reads fixed-size fields off the front of a control payload.
pub struct PacketCursor<'a> {
    remaining: &'a [u8],
}

impl<'a> View for PacketCursor<'a> {
    type V = Seq<u8>;

    closed spec fn view(&self) -> Seq<u8> {
        self.remaining@
    }
}

impl<'a> PacketCursor<'a> {
    /// Cursor positioned at the start of `bytes`.
    pub fn new(bytes: &'a [u8]) -> (cursor: PacketCursor<'a>)
        ensures
            cursor@ == bytes@,
    {
        PacketCursor { remaining: bytes }
    }

    /// Splits off the next `length` bytes.
    pub fn take(&mut self, length: usize) -> (value: &'a [u8])
        requires
            length <= old(self)@.len(),
        ensures
            value@ == old(self)@.subrange(0, length as int),
            final(self)@ == old(self)@.subrange(length as int, old(self)@.len() as int),
    {
        let (value, remaining) = self.remaining.split_at(length);
        self.remaining = remaining;
        value
    }

    /// Next 32 bytes as a device identifier.
    pub fn device_id(&mut self) -> (id: [u8; 32])
        requires
            32 <= old(self)@.len(),
        ensures
            id@ == old(self)@.subrange(0, 32),
            final(self)@ == old(self)@.subrange(32, old(self)@.len() as int),
    {
        let bytes = self.take(32);
        let mut id: [u8; 32] = [0u8; 32];
        let mut index: usize = 0;
        while index < 32
            invariant
                0 <= index <= 32,
                bytes@.len() == 32,
                id@.len() == 32,
                forall|j: int| 0 <= j < index ==> id@[j] == bytes@[j],
            decreases 32 - index,
        {
            id[index] = bytes[index];
            index = index + 1;
        }
        assert(id@ =~= bytes@);
        id
    }

    /// Next two bytes as a big-endian integer.
    pub fn u16(&mut self) -> (value: u16)
        requires
            2 <= old(self)@.len(),
        ensures
            value as nat == be_value(old(self)@.subrange(0, 2)),
            final(self)@ == old(self)@.subrange(2, old(self)@.len() as int),
    {
        let bytes = self.take(2);
        proof {
            reveal_with_fuel(pow256, 3);
            lemma_be_value_bound(bytes@);
        }
        read_be(bytes) as u16
    }

    /// Next four bytes as a big-endian integer.
    pub fn u32(&mut self) -> (value: u32)
        requires
            4 <= old(self)@.len(),
        ensures
            value as nat == be_value(old(self)@.subrange(0, 4)),
            final(self)@ == old(self)@.subrange(4, old(self)@.len() as int),
    {
        let bytes = self.take(4);
        proof {
            reveal_with_fuel(pow256, 5);
            lemma_be_value_bound(bytes@);
        }
        read_be(bytes) as u32
    }

    /// Next eight bytes as a big-endian integer.
    pub fn u64(&mut self) -> (value: u64)
        requires
            8 <= old(self)@.len(),
        ensures
            value as nat == be_value(old(self)@.subrange(0, 8)),
            final(self)@ == old(self)@.subrange(8, old(self)@.len() as int),
    {
        let bytes = self.take(8);
        read_be(bytes)
    }

    /// Ends decoding; the payload must have been consumed exactly.
    pub fn finish(self)
        requires
            self@.len() == 0,
    {
    }
}

/// Kind byte of the host's ready report.
pub const HOST_READY: u8 = 1;
/// Kind byte of the controller's ready report.
pub const CONTROLLER_READY: u8 = 2;
/// Kind byte of the ticket handed to the controller.
pub const ACCEPT_TICKET: u8 = 3;
/// Kind byte of the controller's verified generation.
pub const CONTROLLER_VERIFIED: u8 = 4;
/// Kind byte of the request that the host verify a controller.
pub const VERIFY_HOST: u8 = 5;
/// Kind byte of the host's verified generation.
pub const HOST_VERIFIED: u8 = 6;
/// Kind byte of the controller shutdown request.
pub const SHUTDOWN_CONTROLLER: u8 = 7;

/// Appends a byte string to a vector.
fn append_bytes(out: &mut Vec<u8>, bytes: &[u8])
    ensures
        final(out)@ == old(out)@ + bytes@,
{
    let mut index: usize = 0;
    while index < bytes.len()
        invariant
            0 <= index <= bytes@.len(),
            out@ == old(out)@ + bytes@.subrange(0, index as int),
        decreases bytes@.len() - index,
    {
        out.push(bytes[index]);
        index = index + 1;
        assert(out@ =~= old(out)@ + bytes@.subrange(0, index as int));
    }
    assert(bytes@.subrange(0, index as int) =~= bytes@);
}

/// Frame: four-byte big-endian length of kind plus payload, the kind, the payload.
pub open spec fn spec_packet(kind: u8, payload: Seq<u8>) -> Seq<u8> {
    be_bytes((payload.len() + 1) as nat, 4) + seq![kind] + payload
}

/// What reading one packet of `expected` kind from the front of `bytes` gives.
pub open spec fn spec_read_packet(bytes: Seq<u8>, expected: u8) -> Result<Seq<u8>, ControlPacketError> {
    if bytes.len() < 4 {
        Err(ControlPacketError::Truncated)
    } else {
        let length = be_value(bytes.subrange(0, 4));
        if length < 1 || length > MAX_CONTROL_PACKET {
            Err(ControlPacketError::InvalidSize)
        } else if bytes.len() < 5 {
            Err(ControlPacketError::Truncated)
        } else if bytes[4] != expected {
            Err(ControlPacketError::UnexpectedKind)
        } else if bytes.len() < 4 + length {
            Err(ControlPacketError::Truncated)
        } else {
            Ok(bytes.subrange(5, 4 + length as int))
        }
    }
}

/// Frames a payload under `kind`; fails when kind plus payload exceed the packet limit.
pub fn encode_packet(kind: u8, payload: &[u8]) -> (packet: Result<Vec<u8>, ControlPacketError>)
    ensures
        match packet {
            Ok(bytes) => payload@.len() + 1 <= MAX_CONTROL_PACKET && bytes@ == spec_packet(kind, payload@),
            Err(error) => payload@.len() + 1 > MAX_CONTROL_PACKET && error == ControlPacketError::TooLarge,
        },
{
    if payload.len() >= MAX_CONTROL_PACKET {
        return Err(ControlPacketError::TooLarge);
    }
    let length: u64 = payload.len() as u64 + 1;
    let mut bytes: Vec<u8> = Vec::new();
    push_be(&mut bytes, length, 4);
    bytes.push(kind);
    append_bytes(&mut bytes, payload);
    assert(bytes@ =~= spec_packet(kind, payload@));
    Ok(bytes)
}

/// Validates a packet's four-byte length header and returns the declared length.
pub fn packet_length(header: &[u8]) -> (length: Result<usize, ControlPacketError>)
    requires
        header@.len() == 4,
    ensures
        match length {
            Ok(n) => n == be_value(header@) && 1 <= n <= MAX_CONTROL_PACKET,
            Err(error) => error == ControlPacketError::InvalidSize
                && (be_value(header@) < 1 || be_value(header@) > MAX_CONTROL_PACKET),
        },
{
    let declared = read_be(header);
    if declared < 1 || declared > MAX_CONTROL_PACKET as u64 {
        Err(ControlPacketError::InvalidSize)
    } else {
        Ok(declared as usize)
    }
}

/// Reads one packet of the `expected` kind from the front of `bytes` and returns its payload.
pub fn decode_packet(bytes: &[u8], expected: u8) -> (payload: Result<Vec<u8>, ControlPacketError>)
    ensures
        match payload {
            Ok(p) => spec_read_packet(bytes@, expected) == Ok::<Seq<u8>, ControlPacketError>(p@),
            Err(error) => spec_read_packet(bytes@, expected) == Err::<Seq<u8>, ControlPacketError>(error),
        },
{
    if bytes.len() < 4 {
        return Err(ControlPacketError::Truncated);
    }
    let (header, _) = bytes.split_at(4);
    let length = match packet_length(header) {
        Ok(n) => n,
        Err(error) => return Err(error),
    };
    if bytes.len() < 5 {
        return Err(ControlPacketError::Truncated);
    }
    if bytes[4] != expected {
        return Err(ControlPacketError::UnexpectedKind);
    }
    if bytes.len() - 4 < length {
        return Err(ControlPacketError::Truncated);
    }
    let (front, _) = bytes.split_at(4 + length);
    let (_, body) = front.split_at(5);
    let mut payload: Vec<u8> = Vec::new();
    append_bytes(&mut payload, body);
    assert(payload@ =~= bytes@.subrange(5, 4 + length));
    Ok(payload)
}

/// Reading back a framed packet of the same kind gives the payload.
pub proof fn law_packet_round_trip(kind: u8, payload: Seq<u8>)
    requires
        payload.len() + 1 <= MAX_CONTROL_PACKET,
    ensures
        spec_read_packet(spec_packet(kind, payload), kind) == Ok::<Seq<u8>, ControlPacketError>(payload),
{
    let length = (payload.len() + 1) as nat;
    let bytes = spec_packet(kind, payload);
    law_be_round_trip(length, 4);
    assert(pow256(4) == 0x1_0000_0000) by {
        reveal_with_fuel(pow256, 5);
    }
    assert(length % pow256(4) == length);
    assert(bytes.subrange(0, 4) =~= be_bytes(length, 4));
    assert(be_value(bytes.subrange(0, 4)) == length);
    assert(bytes.len() == 4 + length);
    assert(bytes[4] == kind);
    assert(bytes.subrange(5, 4 + length as int) =~= payload);
}

/// Reading a packet under another kind than it was framed with is refused.
pub proof fn law_packet_kind_mismatch(kind: u8, payload: Seq<u8>, expected: u8)
    requires
        payload.len() + 1 <= MAX_CONTROL_PACKET,
        kind != expected,
    ensures
        spec_read_packet(spec_packet(kind, payload), expected) == Err::<Seq<u8>, ControlPacketError>(ControlPacketError::UnexpectedKind),
{
    let length = (payload.len() + 1) as nat;
    let bytes = spec_packet(kind, payload);
    law_be_round_trip(length, 4);
    assert(pow256(4) == 0x1_0000_0000) by {
        reveal_with_fuel(pow256, 5);
    }
    assert(length % pow256(4) == length);
    assert(bytes.subrange(0, 4) =~= be_bytes(length, 4));
    assert(be_value(bytes.subrange(0, 4)) == length);
    assert(bytes.len() == 4 + length);
    assert(bytes[4] == kind);
}

/// Layout shared by the host-ready and accept-ticket reports: device id, port,
/// four-byte ticket length, ticket.
pub open spec fn spec_ticket_payload(device_id: Seq<u8>, port: u16, ticket: Seq<u8>) -> Seq<u8> {
    device_id + be_bytes(port as nat, 2) + be_bytes(ticket.len(), 4) + ticket
}

/// Whether a payload holds exactly one device id, port, length and ticket of that length.
pub open spec fn ticket_payload_well_formed(payload: Seq<u8>) -> bool {
    payload.len() >= 38 && payload.len() == 38 + be_value(payload.subrange(34, 38))
}

/// Device id, port and ticket read from a well-formed ticket payload.
pub open spec fn spec_decode_ticket_payload(payload: Seq<u8>) -> (Seq<u8>, nat, Seq<u8>) {
    (payload.subrange(0, 32), be_value(payload.subrange(32, 34)), payload.subrange(38, payload.len() as int))
}

/// Layout of an owner-ready report: device id, port.
pub open spec fn spec_owner_ready_payload(device_id: Seq<u8>, port: u16) -> Seq<u8> {
    device_id + be_bytes(port as nat, 2)
}

/// Layout of a verify-host request: controller device id, authorization generation.
pub open spec fn spec_verify_host_payload(device_id: Seq<u8>, generation: u64) -> Seq<u8> {
    device_id + be_bytes(generation as nat, 8)
}

/// Builds the host-ready / accept-ticket payload; fails when the ticket length does not fit in four bytes.
pub fn ticket_payload(device_id: &[u8; 32], port: u16, ticket: &[u8]) -> (payload: Result<Vec<u8>, ControlPacketError>)
    ensures
        match payload {
            Ok(bytes) => ticket@.len() <= u32::MAX && bytes@ == spec_ticket_payload(device_id@, port, ticket@),
            Err(error) => ticket@.len() > u32::MAX && error == ControlPacketError::TooLarge,
        },
{
    if ticket.len() as u64 > u32::MAX as u64 {
        return Err(ControlPacketError::TooLarge);
    }
    let mut bytes: Vec<u8> = Vec::new();
    append_bytes(&mut bytes, device_id.as_slice());
    push_be(&mut bytes, port as u64, 2);
    push_be(&mut bytes, ticket.len() as u64, 4);
    append_bytes(&mut bytes, ticket);
    assert(bytes@ =~= spec_ticket_payload(device_id@, port, ticket@));
    Ok(bytes)
}

/// Builds an owner-ready payload.
pub fn owner_ready_payload(device_id: &[u8; 32], port: u16) -> (bytes: Vec<u8>)
    ensures
        bytes@ == spec_owner_ready_payload(device_id@, port),
{
    let mut bytes: Vec<u8> = Vec::new();
    append_bytes(&mut bytes, device_id.as_slice());
    push_be(&mut bytes, port as u64, 2);
    assert(bytes@ =~= spec_owner_ready_payload(device_id@, port));
    bytes
}

/// Builds a verify-host payload.
pub fn verify_host_payload(device_id: &[u8; 32], generation: u64) -> (bytes: Vec<u8>)
    ensures
        bytes@ == spec_verify_host_payload(device_id@, generation),
{
    let mut bytes: Vec<u8> = Vec::new();
    append_bytes(&mut bytes, device_id.as_slice());
    push_be(&mut bytes, generation, 8);
    assert(bytes@ =~= spec_verify_host_payload(device_id@, generation));
    bytes
}

/// Builds a generation payload: the generation as eight big-endian bytes.
pub fn generation_payload(generation: u64) -> (bytes: Vec<u8>)
    ensures
        bytes@ == be_bytes(generation as nat, 8),
{
    let mut bytes: Vec<u8> = Vec::new();
    push_be(&mut bytes, generation, 8);
    assert(bytes@ =~= be_bytes(generation as nat, 8));
    bytes
}

/// Reads a host-ready payload; the payload must be exactly the declared layout.
pub fn decode_host_ready(payload: &[u8]) -> (decoded: ([u8; 32], u16, Vec<u8>))
    requires
        ticket_payload_well_formed(payload@),
    ensures
        (decoded.0@, decoded.1 as nat, decoded.2@) == spec_decode_ticket_payload(payload@),
{
    let mut cursor = PacketCursor::new(payload);
    let ghost whole = payload@;
    let device_id = cursor.device_id();
    assert(cursor@.subrange(0, 2) =~= whole.subrange(32, 34));
    let port = cursor.u16();
    assert(cursor@ =~= whole.subrange(34, whole.len() as int));
    assert(cursor@.subrange(0, 4) =~= whole.subrange(34, 38));
    let ticket_length = cursor.u32() as usize;
    assert(cursor@ =~= whole.subrange(38, whole.len() as int));
    let ticket_bytes = cursor.take(ticket_length);
    let mut ticket: Vec<u8> = Vec::new();
    append_bytes(&mut ticket, ticket_bytes);
    assert(ticket@ =~= payload@.subrange(38, payload@.len() as int));
    cursor.finish();
    (device_id, port, ticket)
}

/// Reads a host-ready or accept-ticket payload of untrusted length: `None`
/// unless it holds exactly one device id, port, ticket length and ticket.
pub fn decode_ticket_payload_checked(payload: &[u8]) -> (decoded: Option<([u8; 32], u16, Vec<u8>)>)
    ensures
        match decoded {
            Some(fields) => ticket_payload_well_formed(payload@)
                && (fields.0@, fields.1 as nat, fields.2@) == spec_decode_ticket_payload(payload@),
            None => !ticket_payload_well_formed(payload@),
        },
{
    if payload.len() < 38 {
        return None;
    }
    let (front, _) = payload.split_at(38);
    let (_, length_bytes) = front.split_at(34);
    assert(length_bytes@ =~= payload@.subrange(34, 38));
    let declared = read_be(length_bytes);
    if (payload.len() - 38) as u64 != declared {
        return None;
    }
    Some(decode_host_ready(payload))
}

/// Reads an accept-ticket payload, which shares the host-ready layout.
pub fn decode_accept_ticket(payload: &[u8]) -> (decoded: ([u8; 32], u16, Vec<u8>))
    requires
        ticket_payload_well_formed(payload@),
    ensures
        (decoded.0@, decoded.1 as nat, decoded.2@) == spec_decode_ticket_payload(payload@),
{
    decode_host_ready(payload)
}

/// Reads an owner-ready payload of exactly 34 bytes.
pub fn decode_owner_ready(payload: &[u8]) -> (decoded: ([u8; 32], u16))
    requires
        payload@.len() == 34,
    ensures
        decoded.0@ == payload@.subrange(0, 32),
        decoded.1 as nat == be_value(payload@.subrange(32, 34)),
{
    let mut cursor = PacketCursor::new(payload);
    let device_id = cursor.device_id();
    let port = cursor.u16();
    assert(payload@.subrange(32, 34).subrange(0, 2) =~= payload@.subrange(32, 34));
    cursor.finish();
    (device_id, port)
}

/// Reads a verify-host payload of exactly 40 bytes.
pub fn decode_verify_host(payload: &[u8]) -> (decoded: ([u8; 32], u64))
    requires
        payload@.len() == 40,
    ensures
        decoded.0@ == payload@.subrange(0, 32),
        decoded.1 as nat == be_value(payload@.subrange(32, 40)),
{
    let mut cursor = PacketCursor::new(payload);
    let device_id = cursor.device_id();
    let generation = cursor.u64();
    assert(payload@.subrange(32, 40).subrange(0, 8) =~= payload@.subrange(32, 40));
    cursor.finish();
    (device_id, generation)
}

/// Reads a generation payload of exactly eight bytes.
pub fn decode_generation(payload: &[u8]) -> (generation: u64)
    requires
        payload@.len() == 8,
    ensures
        generation as nat == be_value(payload@),
{
    let mut cursor = PacketCursor::new(payload);
    let generation = cursor.u64();
    assert(payload@.subrange(0, 8) =~= payload@);
    cursor.finish();
    generation
}

proof fn lemma_be_exact(value: nat, width: nat)
    requires
        value < pow256(width),
    ensures
        be_value(be_bytes(value, width)) == value,
        be_bytes(value, width).len() == width,
{
    law_be_round_trip(value, width);
    lemma_small_mod(value, pow256(width));
}

/// A ticket payload reads back as the device id, port and ticket it was built from.
pub proof fn law_ticket_payload_round_trip(device_id: Seq<u8>, port: u16, ticket: Seq<u8>)
    requires
        device_id.len() == 32,
        ticket.len() <= u32::MAX,
    ensures
        ticket_payload_well_formed(spec_ticket_payload(device_id, port, ticket)),
        spec_decode_ticket_payload(spec_ticket_payload(device_id, port, ticket)) == (device_id, port as nat, ticket),
{
    reveal_with_fuel(pow256, 5);
    lemma_be_exact(port as nat, 2);
    lemma_be_exact(ticket.len(), 4);
    let payload = spec_ticket_payload(device_id, port, ticket);
    assert(payload.subrange(0, 32) =~= device_id);
    assert(payload.subrange(32, 34) =~= be_bytes(port as nat, 2));
    assert(payload.subrange(34, 38) =~= be_bytes(ticket.len(), 4));
    assert(payload.subrange(38, payload.len() as int) =~= ticket);
}

/// An owner-ready payload reads back as the device id and port it was built from.
pub proof fn law_owner_ready_round_trip(device_id: Seq<u8>, port: u16)
    requires
        device_id.len() == 32,
    ensures
        spec_owner_ready_payload(device_id, port).len() == 34,
        spec_owner_ready_payload(device_id, port).subrange(0, 32) == device_id,
        be_value(spec_owner_ready_payload(device_id, port).subrange(32, 34)) == port,
{
    reveal_with_fuel(pow256, 3);
    lemma_be_exact(port as nat, 2);
    let payload = spec_owner_ready_payload(device_id, port);
    assert(payload.subrange(0, 32) =~= device_id);
    assert(payload.subrange(32, 34) =~= be_bytes(port as nat, 2));
}

/// A verify-host payload reads back as the device id and generation it was built from.
pub proof fn law_verify_host_round_trip(device_id: Seq<u8>, generation: u64)
    requires
        device_id.len() == 32,
    ensures
        spec_verify_host_payload(device_id, generation).len() == 40,
        spec_verify_host_payload(device_id, generation).subrange(0, 32) == device_id,
        be_value(spec_verify_host_payload(device_id, generation).subrange(32, 40)) == generation,
{
    reveal_with_fuel(pow256, 9);
    lemma_be_exact(generation as nat, 8);
    let payload = spec_verify_host_payload(device_id, generation);
    assert(payload.subrange(0, 32) =~= device_id);
    assert(payload.subrange(32, 40) =~= be_bytes(generation as nat, 8));
}

/// A generation payload reads back as the generation it was built from.
pub proof fn law_generation_round_trip(generation: u64)
    ensures
        be_bytes(generation as nat, 8).len() == 8,
        be_value(be_bytes(generation as nat, 8)) == generation,
{
    reveal_with_fuel(pow256, 9);
    lemma_be_exact(generation as nat, 8);
}

} // verus!
