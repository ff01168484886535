//! HCI events: event codes and the decoding of the events the engine reads.
use vstd::prelude::*;
use crate::commands::{HciCommand, opcode_of, le_bytes, le_value, read_le16};
use crate::connection::{HciConnectionLinkType, HciEncryptionType, link_type_of, encryption_of};
use crate::packet::HciPacket;

verus! {

/// The code that identifies the kind of an event.
#[derive(Debug, Clone, Copy, PartialEq, Eq, Structural)]
pub enum HciEventType {
    Unknown,
    InquiryComplete,
    InquiryResult,
    ConnectionComplete,
    ConnectionRequest,
    DisconnectionComplete,
    AuthenticationComplete,
    RemoteNameRequestComplete,
    CommandComplete,
    CommandStatus,
    RoleChange,
    NumberOfCompletedPackets,
    PinCodeRequest,
    LinkKeyRequest,
    LinkKeyNotification,
    MaxSlotsChange,
}

/// The event kind named by an event code; codes that name no known kind are `Unknown`.
pub open spec fn event_type_of(v: u8) -> HciEventType {
    if v == 0x01 {
        HciEventType::InquiryComplete
    } else if v == 0x02 {
        HciEventType::InquiryResult
    } else if v == 0x03 {
        HciEventType::ConnectionComplete
    } else if v == 0x04 {
        HciEventType::ConnectionRequest
    } else if v == 0x05 {
        HciEventType::DisconnectionComplete
    } else if v == 0x06 {
        HciEventType::AuthenticationComplete
    } else if v == 0x07 {
        HciEventType::RemoteNameRequestComplete
    } else if v == 0x0E {
        HciEventType::CommandComplete
    } else if v == 0x0F {
        HciEventType::CommandStatus
    } else if v == 0x12 {
        HciEventType::RoleChange
    } else if v == 0x13 {
        HciEventType::NumberOfCompletedPackets
    } else if v == 0x16 {
        HciEventType::PinCodeRequest
    } else if v == 0x17 {
        HciEventType::LinkKeyRequest
    } else if v == 0x18 {
        HciEventType::LinkKeyNotification
    } else if v == 0x1B {
        HciEventType::MaxSlotsChange
    } else {
        HciEventType::Unknown
    }
}

/// The event code of an event kind.
pub open spec fn event_code(t: HciEventType) -> u8 {
    match t {
        HciEventType::Unknown => 0x00,
        HciEventType::InquiryComplete => 0x01,
        HciEventType::InquiryResult => 0x02,
        HciEventType::ConnectionComplete => 0x03,
        HciEventType::ConnectionRequest => 0x04,
        HciEventType::DisconnectionComplete => 0x05,
        HciEventType::AuthenticationComplete => 0x06,
        HciEventType::RemoteNameRequestComplete => 0x07,
        HciEventType::CommandComplete => 0x0E,
        HciEventType::CommandStatus => 0x0F,
        HciEventType::RoleChange => 0x12,
        HciEventType::NumberOfCompletedPackets => 0x13,
        HciEventType::PinCodeRequest => 0x16,
        HciEventType::LinkKeyRequest => 0x17,
        HciEventType::LinkKeyNotification => 0x18,
        HciEventType::MaxSlotsChange => 0x1B,
    }
}

impl HciEventType {
    pub fn from(orig: u8) -> (r: Self)
        ensures
            r == event_type_of(orig),
    {
        match orig {
            0x01 => HciEventType::InquiryComplete,
            0x02 => HciEventType::InquiryResult,
            0x03 => HciEventType::ConnectionComplete,
            0x04 => HciEventType::ConnectionRequest,
            0x05 => HciEventType::DisconnectionComplete,
            0x06 => HciEventType::AuthenticationComplete,
            0x07 => HciEventType::RemoteNameRequestComplete,
            0x0E => HciEventType::CommandComplete,
            0x0F => HciEventType::CommandStatus,
            0x12 => HciEventType::RoleChange,
            0x13 => HciEventType::NumberOfCompletedPackets,
            0x16 => HciEventType::PinCodeRequest,
            0x17 => HciEventType::LinkKeyRequest,
            0x18 => HciEventType::LinkKeyNotification,
            0x1B => HciEventType::MaxSlotsChange,
            _ => HciEventType::Unknown,
        }
    }

    /// The event code of this kind.
    pub fn value(&self) -> (r: u8)
        ensures
            r == event_code(*self),
    {
        match self {
            HciEventType::Unknown => 0x00,
            HciEventType::InquiryComplete => 0x01,
            HciEventType::InquiryResult => 0x02,
            HciEventType::ConnectionComplete => 0x03,
            HciEventType::ConnectionRequest => 0x04,
            HciEventType::DisconnectionComplete => 0x05,
            HciEventType::AuthenticationComplete => 0x06,
            HciEventType::RemoteNameRequestComplete => 0x07,
            HciEventType::CommandComplete => 0x0E,
            HciEventType::CommandStatus => 0x0F,
            HciEventType::RoleChange => 0x12,
            HciEventType::NumberOfCompletedPackets => 0x13,
            HciEventType::PinCodeRequest => 0x16,
            HciEventType::LinkKeyRequest => 0x17,
            HciEventType::LinkKeyNotification => 0x18,
            HciEventType::MaxSlotsChange => 0x1B,
        }
    }
}

/// The two bytes that start every event: its code and the length of its parameters.
#[derive(Debug, Clone, Copy, PartialEq, Eq, Structural)]
pub struct HciEventHeader {
    pub evt_code: HciEventType,
    pub param_length: u8,
}

/// The header read from the start of an event's bytes.
pub open spec fn header_of(d: Seq<u8>) -> HciEventHeader
    recommends
        d.len() >= 2,
{
    HciEventHeader { evt_code: event_type_of(d[0]), param_length: d[1] }
}

fn read_header(d: &Vec<u8>) -> (r: HciEventHeader)
    requires
        d@.len() >= 2,
    ensures
        r == header_of(d@),
{
    HciEventHeader { evt_code: HciEventType::from(d[0]), param_length: d[1] }
}

fn read_array3(d: &Vec<u8>, off: usize) -> (r: [u8; 3])
    requires
        off + 3 <= d.len(),
    ensures
        r@ == d@.subrange(off as int, off + 3),
{
    let r = [d[off], d[off + 1], d[off + 2]];
    assert(r@ =~= d@.subrange(off as int, off + 3));
    r
}

fn read_array6(d: &Vec<u8>, off: usize) -> (r: [u8; 6])
    requires
        off + 6 <= d.len(),
    ensures
        r@ == d@.subrange(off as int, off + 6),
{
    let r = [d[off], d[off + 1], d[off + 2], d[off + 3], d[off + 4], d[off + 5]];
    assert(r@ =~= d@.subrange(off as int, off + 6));
    r
}

/// Whether `d` holds a CommandComplete event: the code 0x0E and room for the credit and opcode.
pub open spec fn is_command_complete(d: Seq<u8>) -> bool {
    d.len() >= 5 && d[0] == 0x0E
}

/// A command has been processed by the controller.
#[derive(Debug, Clone, Copy)]
pub struct HciEventCommandComplete {
    pub header: HciEventHeader,
    /// Number of commands the controller accepts from now on.
    pub num_cmd_packets: u8,
    /// The command that completed.
    pub op_code: HciCommand,
    /// The first return parameter, where the event carries one; 0 otherwise.
    pub status: u8,
}

impl HciEventCommandComplete {
    /// Decodes a CommandComplete event; any other bytes come back unchanged.
    pub fn try_from(orig: HciPacket<Vec<u8>>) -> (r: Result<Self, HciPacket<Vec<u8>>>)
        ensures
            match r {
                Ok(e) => {
                    let d = orig.p_data@;
                    &&& is_command_complete(d)
                    &&& e.header == header_of(d)
                    &&& e.num_cmd_packets == d[2]
                    &&& e.op_code == opcode_of(le_value(d[3], d[4]))
                    &&& e.status == (if d.len() >= 6 { d[5] } else { 0u8 })
                },
                Err(p) => !is_command_complete(orig.p_data@) && p.p_type == orig.p_type
                    && p.p_data@ == orig.p_data@,
            },
    {
        let d = &orig.p_data;
        if d.len() >= 5 && d[0] == 0x0E {
            Ok(HciEventCommandComplete {
                header: read_header(d),
                num_cmd_packets: d[2],
                op_code: HciCommand::from(read_le16(d[3], d[4])),
                status: if d.len() >= 6 { d[5] } else { 0 },
            })
        } else {
            Err(orig)
        }
    }
}

/// Whether `d` holds a CommandStatus event: the code 0x0F and room for status, credit and opcode.
pub open spec fn is_command_status(d: Seq<u8>) -> bool {
    d.len() >= 6 && d[0] == 0x0F
}

/// The controller has taken a command and reports whether it started.
#[derive(Debug, Clone, Copy)]
pub struct HciEventCommandStatus {
    pub header: HciEventHeader,
    /// 0 on success, an error code otherwise.
    pub status: u8,
    /// Number of commands the controller accepts from now on.
    pub num_cmd_packets: u8,
    /// The command the status is for.
    pub op_code: HciCommand,
}

impl HciEventCommandStatus {
    /// Decodes a CommandStatus event; any other bytes come back unchanged.
    pub fn try_from(orig: HciPacket<Vec<u8>>) -> (r: Result<Self, HciPacket<Vec<u8>>>)
        ensures
            match r {
                Ok(e) => {
                    let d = orig.p_data@;
                    &&& is_command_status(d)
                    &&& e.header == header_of(d)
                    &&& e.status == d[2]
                    &&& e.num_cmd_packets == d[3]
                    &&& e.op_code == opcode_of(le_value(d[4], d[5]))
                },
                Err(p) => !is_command_status(orig.p_data@) && p.p_type == orig.p_type
                    && p.p_data@ == orig.p_data@,
            },
    {
        let d = &orig.p_data;
        if d.len() >= 6 && d[0] == 0x0F {
            Ok(HciEventCommandStatus {
                header: read_header(d),
                status: d[2],
                num_cmd_packets: d[3],
                op_code: HciCommand::from(read_le16(d[4], d[5])),
            })
        } else {
            Err(orig)
        }
    }
}

/// Whether `d` holds a ConnectionRequest event.
pub open spec fn is_connection_request(d: Seq<u8>) -> bool {
    d.len() >= 12 && d[0] == 0x04
}

/// A remote device asks to connect.
#[derive(Debug, Clone, Copy)]
pub struct HciEventConnectionRequest {
    pub header: HciEventHeader,
    pub address: [u8; 6],
    pub device_class: [u8; 3],
    pub link_type: HciConnectionLinkType,
}

impl HciEventConnectionRequest {
    pub fn address(&self) -> (r: [u8; 6])
        ensures
            r == self.address,
    {
        self.address
    }

    pub fn device_class(&self) -> (r: [u8; 3])
        ensures
            r == self.device_class,
    {
        self.device_class
    }

    pub fn link_type(&self) -> (r: HciConnectionLinkType)
        ensures
            r == self.link_type,
    {
        self.link_type
    }

    /// Decodes a ConnectionRequest event; any other bytes come back unchanged.
    pub fn try_from(orig: HciPacket<Vec<u8>>) -> (r: Result<Self, HciPacket<Vec<u8>>>)
        ensures
            match r {
                Ok(e) => {
                    let d = orig.p_data@;
                    &&& is_connection_request(d)
                    &&& e.header == header_of(d)
                    &&& e.address@ == d.subrange(2, 8)
                    &&& e.device_class@ == d.subrange(8, 11)
                    &&& e.link_type == link_type_of(d[11])
                },
                Err(p) => !is_connection_request(orig.p_data@) && p.p_type == orig.p_type
                    && p.p_data@ == orig.p_data@,
            },
    {
        let d = &orig.p_data;
        if d.len() >= 12 && d[0] == 0x04 {
            Ok(HciEventConnectionRequest {
                header: read_header(d),
                address: read_array6(d, 2),
                device_class: read_array3(d, 8),
                link_type: HciConnectionLinkType::from(d[11]),
            })
        } else {
            Err(orig)
        }
    }
}

/// Whether `d` holds a ConnectionComplete event.
pub open spec fn is_connection_complete(d: Seq<u8>) -> bool {
    d.len() >= 13 && d[0] == 0x03
}

/// A connection has been set up, or failed to be.
#[derive(Debug, Clone, Copy)]
pub struct HciEventConnectionComplete {
    pub header: HciEventHeader,
    pub status: u8,
    /// Connection handle; only its low 12 bits are significant.
    pub handle: u16,
    pub address: [u8; 6],
    pub link_type: HciConnectionLinkType,
    pub encryption_mode: HciEncryptionType,
}

impl HciEventConnectionComplete {
    /// Decodes a ConnectionComplete event; any other bytes come back unchanged.
    pub fn try_from(orig: HciPacket<Vec<u8>>) -> (r: Result<Self, HciPacket<Vec<u8>>>)
        ensures
            match r {
                Ok(e) => {
                    let d = orig.p_data@;
                    &&& is_connection_complete(d)
                    &&& e.header == header_of(d)
                    &&& e.status == d[2]
                    &&& e.handle == le_value(d[3], d[4])
                    &&& e.address@ == d.subrange(5, 11)
                    &&& e.link_type == link_type_of(d[11])
                    &&& e.encryption_mode == encryption_of(d[12])
                },
                Err(p) => !is_connection_complete(orig.p_data@) && p.p_type == orig.p_type
                    && p.p_data@ == orig.p_data@,
            },
    {
        let d = &orig.p_data;
        if d.len() >= 13 && d[0] == 0x03 {
            Ok(HciEventConnectionComplete {
                header: read_header(d),
                status: d[2],
                handle: read_le16(d[3], d[4]),
                address: read_array6(d, 5),
                link_type: HciConnectionLinkType::from(d[11]),
                encryption_mode: HciEncryptionType::from(d[12]),
            })
        } else {
            Err(orig)
        }
    }
}

/// Whether `d` holds an InquiryComplete event.
pub open spec fn is_inquiry_complete(d: Seq<u8>) -> bool {
    d.len() >= 3 && d[0] == 0x01
}

/// An inquiry has ended.
#[derive(Debug, Clone, Copy)]
pub struct HciEventInquiryComplete {
    pub header: HciEventHeader,
    pub status: u8,
}

impl HciEventInquiryComplete {
    /// Decodes an InquiryComplete event; any other bytes come back unchanged.
    pub fn try_from(orig: HciPacket<Vec<u8>>) -> (r: Result<Self, HciPacket<Vec<u8>>>)
        ensures
            match r {
                Ok(e) => {
                    let d = orig.p_data@;
                    &&& is_inquiry_complete(d)
                    &&& e.header == header_of(d)
                    &&& e.status == d[2]
                },
                Err(p) => !is_inquiry_complete(orig.p_data@) && p.p_type == orig.p_type
                    && p.p_data@ == orig.p_data@,
            },
    {
        let d = &orig.p_data;
        if d.len() >= 3 && d[0] == 0x01 {
            Ok(HciEventInquiryComplete { header: read_header(d), status: d[2] })
        } else {
            Err(orig)
        }
    }
}

/// Byte size of one device record of an InquiryResult event.
pub const INQUIRY_RECORD_SIZE: usize = 14;

/// One device found by an inquiry.
#[derive(Debug, Clone, Copy)]
pub struct HciEventInquiryResponseData {
    pub address: [u8; 6],
    pub page_scan_repetition: u8,
    pub reserved: u16,
    pub class_of_device: [u8; 3],
    pub clock_offset: u16,
}

/// Whether `r` is the device record that starts at `off` in `d`.
pub open spec fn record_at(r: HciEventInquiryResponseData, d: Seq<u8>, off: int) -> bool {
    &&& r.address@ == d.subrange(off, off + 6)
    &&& r.page_scan_repetition == d[off + 6]
    &&& r.reserved == le_value(d[off + 7], d[off + 8])
    &&& r.class_of_device@ == d.subrange(off + 9, off + 12)
    &&& r.clock_offset == le_value(d[off + 12], d[off + 13])
}

/// Whether `d` holds an InquiryResult event with all the records its count announces.
pub open spec fn is_inquiry_result(d: Seq<u8>) -> bool {
    d.len() >= 3 && d[0] == 0x02 && d.len() >= 3 + 14 * (d[2] as int)
}

/// Whether `data` are the records of the InquiryResult event held in `d`, in order.
pub open spec fn records_of(data: Seq<HciEventInquiryResponseData>, d: Seq<u8>) -> bool {
    &&& data.len() == d[2] as int
    &&& forall|i: int| 0 <= i < data.len() ==> #[trigger] record_at(data[i], d, 3 + 14 * i)
}

/// The 14 bytes a device record is read from.
pub open spec fn record_bytes(r: HciEventInquiryResponseData) -> Seq<u8> {
    r.address@ + seq![r.page_scan_repetition] + le_bytes(r.reserved) + r.class_of_device@
        + le_bytes(r.clock_offset)
}

/// The bytes of each device record an InquiryResult event `d` carries, in order.
pub open spec fn result_records(d: Seq<u8>) -> Seq<Seq<u8>> {
    Seq::new(d[2] as nat, |i: int| d.subrange(3 + 14 * i, 17 + 14 * i))
}

/// Decoded records are exactly the records' bytes of the event.
pub proof fn lemma_records_bytes(data: Seq<HciEventInquiryResponseData>, d: Seq<u8>)
    requires
        is_inquiry_result(d),
        records_of(data, d),
    ensures
        data.map_values(|r: HciEventInquiryResponseData| record_bytes(r)) == result_records(d),
{
    assert forall|i: int| 0 <= i < data.len() implies #[trigger] record_bytes(data[i]) == d.subrange(
        3 + 14 * i,
        17 + 14 * i,
    ) by {
        assert(record_at(data[i], d, 3 + 14 * i));
        assert(record_bytes(data[i]) =~= d.subrange(3 + 14 * i, 17 + 14 * i));
    }
    assert(data.map_values(|r: HciEventInquiryResponseData| record_bytes(r)) =~= result_records(d));
}

/// Devices found by an inquiry.
#[derive(Debug)]
pub struct HciEventInquiryResponse {
    pub header: HciEventHeader,
    pub num_devices: u8,
    pub data: Vec<HciEventInquiryResponseData>,
}

fn read_record(d: &Vec<u8>, off: usize) -> (r: HciEventInquiryResponseData)
    requires
        off + 14 <= d.len(),
    ensures
        record_at(r, d@, off as int),
{
    HciEventInquiryResponseData {
        address: read_array6(d, off),
        page_scan_repetition: d[off + 6],
        reserved: read_le16(d[off + 7], d[off + 8]),
        class_of_device: read_array3(d, off + 9),
        clock_offset: read_le16(d[off + 12], d[off + 13]),
    }
}

impl HciEventInquiryResponse {
    /// Decodes an InquiryResult event and its device records; any other bytes come back unchanged.
    pub fn try_from(orig: HciPacket<Vec<u8>>) -> (r: Result<Self, HciPacket<Vec<u8>>>)
        ensures
            match r {
                Ok(e) => {
                    let d = orig.p_data@;
                    &&& is_inquiry_result(d)
                    &&& e.header == header_of(d)
                    &&& e.num_devices == d[2]
                    &&& records_of(e.data@, d)
                },
                Err(p) => !is_inquiry_result(orig.p_data@) && p.p_type == orig.p_type
                    && p.p_data@ == orig.p_data@,
            },
    {
        let d = &orig.p_data;
        if d.len() >= 3 && d[0] == 0x02 && d.len() - 3 >= 14 * (d[2] as usize) {
            let n = d[2] as usize;
            let mut data: Vec<HciEventInquiryResponseData> = Vec::new();
            let mut i: usize = 0;
            while i < n
                invariant
                    n == d@[2] as int,
                    i <= n,
                    d@.len() >= 3 + 14 * n,
                    data@.len() == i,
                    forall|j: int| 0 <= j < i ==> #[trigger] record_at(data@[j], d@, 3 + 14 * j),
                decreases n - i,
            {
                let rec = read_record(d, 3 + 14 * i);
                data.push(rec);
                i += 1;
            }
            Ok(HciEventInquiryResponse { header: read_header(d), num_devices: d[2], data })
        } else {
            Err(orig)
        }
    }
}

} // verus!
