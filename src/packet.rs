//! Packets as they travel over the transport: a leading type byte and a payload.
use vstd::prelude::*;
use crate::commands::{HciCommand, HciCommandHeader, IsHciCommand, get_command_size, opcode_of, le_bytes, le_value, read_le16};

verus! {

/// The kind of a packet, given by its leading byte.
#[derive(Debug, Clone, Copy, PartialEq, Eq, Structural)]
pub enum HciPacketType {
    Unknown,
    Command,
    AclData,
    SyncData,
    Event,
}

/// The packet type named by a leading byte.
pub open spec fn packet_type_of(v: u8) -> HciPacketType {
    if v == 1 {
        HciPacketType::Command
    } else if v == 2 {
        HciPacketType::AclData
    } else if v == 3 {
        HciPacketType::SyncData
    } else if v == 4 {
        HciPacketType::Event
    } else {
        HciPacketType::Unknown
    }
}

/// The leading byte of a packet type.
pub open spec fn packet_type_value(t: HciPacketType) -> u8 {
    match t {
        HciPacketType::Unknown => 0,
        HciPacketType::Command => 1,
        HciPacketType::AclData => 2,
        HciPacketType::SyncData => 3,
        HciPacketType::Event => 4,
    }
}

impl HciPacketType {
    pub fn from(orig: u8) -> (r: Self)
        ensures
            r == packet_type_of(orig),
    {
        match orig {
            1 => HciPacketType::Command,
            2 => HciPacketType::AclData,
            3 => HciPacketType::SyncData,
            4 => HciPacketType::Event,
            _ => HciPacketType::Unknown,
        }
    }

    /// The leading byte of this packet type.
    pub fn value(&self) -> (r: u8)
        ensures
            r == packet_type_value(*self),
    {
        match self {
            HciPacketType::Unknown => 0,
            HciPacketType::Command => 1,
            HciPacketType::AclData => 2,
            HciPacketType::SyncData => 3,
            HciPacketType::Event => 4,
        }
    }
}

/// A packet: its type and its payload.
#[derive(Debug)]
pub struct HciPacket<T> {
    pub p_type: HciPacketType,
    pub p_data: T,
}

/// The bytes of a command packet: type byte, opcode (little-endian), parameter length, parameters.
pub open spec fn command_packet_bytes(p_type: u8, op: u16, params: Seq<u8>) -> Seq<u8> {
    seq![p_type] + le_bytes(op) + seq![params.len() as u8] + params
}

/// The bytes a command is sent as.
pub open spec fn command_bytes<C: IsHciCommand>(c: C) -> Seq<u8> {
    command_packet_bytes(1, c.spec_opcode(), c.spec_parameters())
}

/// The header read back from the bytes of a command packet, if they hold one.
pub open spec fn command_header_of(b: Seq<u8>) -> Option<HciCommandHeader> {
    if b.len() >= 4 && b[0] == 1 {
        Some(HciCommandHeader { op_code: opcode_of(le_value(b[1], b[2])), param_length: b[3] })
    } else {
        None
    }
}

impl<C: IsHciCommand> HciPacket<C> {
    pub fn new(p_type: HciPacketType, content: C) -> (r: Self)
        ensures
            r.p_type == p_type,
            r.p_data == content,
    {
        HciPacket { p_type, p_data: content }
    }

    /// The packet as it goes on the wire.
    pub fn as_array_ref(&self) -> (r: Vec<u8>)
        requires
            self.p_data.wf(),
        ensures
            r@ == command_packet_bytes(
                packet_type_value(self.p_type),
                self.p_data.spec_opcode(),
                self.p_data.spec_parameters(),
            ),
    {
        encode_packet(self.p_type.value(), &self.p_data)
    }
}

/// The bytes of a packet of type `p_type` holding `command`.
fn encode_packet<C: IsHciCommand>(p_type: u8, command: &C) -> (r: Vec<u8>)
    requires
        command.wf(),
    ensures
        r@ == command_packet_bytes(p_type, command.spec_opcode(), command.spec_parameters()),
{
    let op = command.opcode();
    let len = get_command_size(command);
    let mut params = command.parameters();
    let mut r: Vec<u8> = vec![p_type, (op % 256) as u8, (op / 256) as u8, len];
    r.append(&mut params);
    assert(r@ =~= command_packet_bytes(p_type, command.spec_opcode(), command.spec_parameters()));
    r
}

/// The bytes a command is sent as: a command packet holding it.
pub fn encode_command<C: IsHciCommand>(command: &C) -> (r: Vec<u8>)
    requires
        command.wf(),
    ensures
        r@ == command_bytes(*command),
{
    encode_packet(1, command)
}

/// Reads the header back from the bytes of a command packet.
pub fn decode_command_header(b: &[u8]) -> (r: Option<HciCommandHeader>)
    ensures
        r == command_header_of(b@),
{
    if b.len() >= 4 && b[0] == 1 {
        let op = read_le16(b[1], b[2]);
        Some(HciCommandHeader { op_code: HciCommand::from(op), param_length: b[3] })
    } else {
        None
    }
}

/// Encoding a command and reading its header back gives the command's opcode and parameter
/// length; the opcode bytes hold the command's 16-bit opcode exactly.
pub proof fn lemma_command_header_round_trip<C: IsHciCommand>(c: C)
    requires
        c.wf(),
    ensures
        command_header_of(command_bytes(c)) == Some(
            HciCommandHeader {
                op_code: opcode_of(c.spec_opcode()),
                param_length: c.spec_parameters().len() as u8,
            },
        ),
        le_value(command_bytes(c)[1], command_bytes(c)[2]) == c.spec_opcode(),
        command_bytes(c)[3] as int == c.spec_parameters().len(),
        command_bytes(c).len() == 4 + c.spec_parameters().len(),
        command_bytes(c).subrange(4, command_bytes(c).len() as int) == c.spec_parameters(),
{
    c.lemma_parameters_fit();
    let b = command_bytes(c);
    let params = c.spec_parameters();
    let op = c.spec_opcode();
    assert(b[1] == (op % 256) as u8);
    assert(b[2] == (op / 256) as u8);
    assert(b.subrange(4, b.len() as int) =~= params);
}

impl HciPacket<Vec<u8>> {
    /// Splits received bytes into the leading type byte and the rest.
    pub fn from(orig: Vec<u8>) -> (r: Self)
        ensures
            orig@.len() == 0 ==> r.p_type == HciPacketType::Unknown && r.p_data@ == Seq::<u8>::empty(),
            orig@.len() > 0 ==> r.p_type == packet_type_of(orig@[0]) && r.p_data@ == orig@.drop_first(),
    {
        if orig.len() == 0 {
            HciPacket { p_type: HciPacketType::Unknown, p_data: Vec::new() }
        } else {
            let rest = vstd::slice::slice_to_vec(vstd::slice::slice_subrange(orig.as_slice(), 1, orig.len()));
            assert(rest@ =~= orig@.drop_first());
            HciPacket { p_type: HciPacketType::from(orig[0]), p_data: rest }
        }
    }
}

} // verus!
