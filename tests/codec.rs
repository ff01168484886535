use ruspiro_btle::commands::{
    HciCommand, HciCommandAcceptConnection, HciCommandDownloadMiniDriver, HciCommandHeader,
    HciCommandInquiry, HciCommandReadBDAddr, HciCommandReset, HciCommandVendorBcm,
    HciCommandWriteClassOfDevice, HciCommandWriteLocalName, HciCommandWriteScanEnable,
    InquiryLength, IsHciCommand, ScanEnableType, INQUIRY_LAP_GIAC, get_command_size,
};
use ruspiro_btle::connection::{HciConnectionLinkType, HciConnectionRole, HciEncryptionType};
use ruspiro_btle::events::{
    HciEventCommandComplete, HciEventCommandStatus, HciEventConnectionComplete,
    HciEventConnectionRequest, HciEventInquiryComplete, HciEventInquiryResponse, HciEventType,
};
use ruspiro_btle::packet::{decode_command_header, encode_command, HciPacket, HciPacketType};

fn event(data: Vec<u8>) -> HciPacket<Vec<u8>> {
    HciPacket { p_type: HciPacketType::Event, p_data: data }
}

fn header_round_trip<C: IsHciCommand>(c: &C, op: HciCommand, raw_op: u16, params: &[u8]) {
    let bytes = encode_command(c);
    assert_eq!(bytes[0], 1);
    assert_eq!(bytes[1] as u16 | (bytes[2] as u16) << 8, raw_op);
    assert_eq!(&bytes[4..], params);
    let h = decode_command_header(&bytes).unwrap();
    assert_eq!(h, HciCommandHeader { op_code: op, param_length: params.len() as u8 });
    assert_eq!(c.op_code(), op);
    assert_eq!(c.size(), 3 + params.len());
    assert_eq!(c.header(), h);
}

#[test]
fn round_trip_every_command_kind() {
    header_round_trip(&HciCommandReset::new(), HciCommand::Reset, 0x0C03, &[]);
    header_round_trip(&HciCommandDownloadMiniDriver::new(), HciCommand::DownloadMiniDriver, 0xFC2E, &[]);
    header_round_trip(&HciCommandReadBDAddr::new(), HciCommand::ReadBDAddr, 0x1009, &[]);
    header_round_trip(
        &HciCommandWriteClassOfDevice::new([0x0C, 0x01, 0x02]),
        HciCommand::WriteClassOfDevice,
        0x0C24,
        &[0x0C, 0x01, 0x02],
    );
    header_round_trip(
        &HciCommandWriteLocalName::new(b"RusPiRo"),
        HciCommand::WriteLocalName,
        0x0C13,
        b"RusPiRo",
    );
    header_round_trip(
        &HciCommandWriteScanEnable::new(ScanEnableType::Both),
        HciCommand::WriteScanEnable,
        0x0C1A,
        &[3],
    );
    header_round_trip(
        &HciCommandVendorBcm::new(0xFC4C, &[1, 2, 3]),
        HciCommand::WriteRam,
        0xFC4C,
        &[1, 2, 3],
    );
    header_round_trip(
        &HciCommandVendorBcm::new(0xFC99, &[9]),
        HciCommand::Unknown,
        0xFC99,
        &[9],
    );
    header_round_trip(
        &HciCommandInquiry::new(INQUIRY_LAP_GIAC, InquiryLength::Sec(5), 5),
        HciCommand::Inquiry,
        0x0401,
        &[0x33, 0x8B, 0x9E, 4, 5],
    );
    header_round_trip(
        &HciCommandAcceptConnection::new([1, 2, 3, 4, 5, 6], HciConnectionRole::Slave),
        HciCommand::AcceptConnection,
        0x0409,
        &[1, 2, 3, 4, 5, 6, 1],
    );
}

#[test]
fn packet_as_array_ref_uses_its_type_byte() {
    let p = HciPacket::new(HciPacketType::Command, HciCommandReset::new());
    assert_eq!(p.as_array_ref(), vec![1, 0x03, 0x0C, 0]);
    let p = HciPacket::new(HciPacketType::Command, HciCommandWriteScanEnable::new(ScanEnableType::NoScans));
    assert_eq!(p.as_array_ref(), vec![1, 0x1A, 0x0C, 1, 0]);
}

#[test]
fn decode_command_header_rejects_other_bytes() {
    assert_eq!(decode_command_header(&[4, 0x03, 0x0C, 0]), None);
    assert_eq!(decode_command_header(&[1, 0x03, 0x0C]), None);
}

#[test]
fn opcodes_from_wire_values() {
    assert_eq!(HciCommand::from(0x0C03), HciCommand::Reset);
    assert_eq!(HciCommand::from(0x0401), HciCommand::Inquiry);
    assert_eq!(HciCommand::from(0x0405), HciCommand::CreateConnection);
    assert_eq!(HciCommand::from(0x0409), HciCommand::AcceptConnection);
    assert_eq!(HciCommand::from(0x1001), HciCommand::ReadVersionInfo);
    assert_eq!(HciCommand::from(0x1009), HciCommand::ReadBDAddr);
    assert_eq!(HciCommand::from(0xFC4E), HciCommand::LaunchRam);
    assert_eq!(HciCommand::from(0x1234), HciCommand::Unknown);
    assert_eq!(HciCommand::WriteLocalName.value(), 0x0C13);
    assert_eq!(HciCommand::Unknown.value(), 0);
}

#[test]
fn inquiry_length_codes() {
    assert_eq!(u8::from(InquiryLength::Min), 0x01);
    assert_eq!(u8::from(InquiryLength::Max), 0x30);
    assert_eq!(u8::from(InquiryLength::Sec(5)), 4);
    assert_eq!(u8::from(InquiryLength::Sec(3)), 2);
    assert_eq!(u8::from(InquiryLength::Sec(0)), 0x01);
    assert_eq!(u8::from(InquiryLength::Sec(255)), 0x30);
    assert_eq!(u8::from(InquiryLength::Sec(61)), 48);
}

#[test]
fn type_bytes_and_codes() {
    assert_eq!(HciPacketType::from(1), HciPacketType::Command);
    assert_eq!(HciPacketType::from(2), HciPacketType::AclData);
    assert_eq!(HciPacketType::from(3), HciPacketType::SyncData);
    assert_eq!(HciPacketType::from(4), HciPacketType::Event);
    assert_eq!(HciPacketType::from(9), HciPacketType::Unknown);
    assert_eq!(HciPacketType::Event.value(), 4);
    assert_eq!(HciEventType::from(0x0E), HciEventType::CommandComplete);
    assert_eq!(HciEventType::from(0x0F), HciEventType::CommandStatus);
    assert_eq!(HciEventType::from(0x02), HciEventType::InquiryResult);
    assert_eq!(HciEventType::from(0x1B), HciEventType::MaxSlotsChange);
    assert_eq!(HciEventType::from(0x40), HciEventType::Unknown);
    assert_eq!(HciEventType::ConnectionRequest.value(), 0x04);
    assert_eq!(HciConnectionLinkType::from(0), HciConnectionLinkType::Sco);
    assert_eq!(HciConnectionLinkType::from(1), HciConnectionLinkType::Acl);
    assert_eq!(HciConnectionLinkType::from(7), HciConnectionLinkType::Unknown);
    assert_eq!(HciEncryptionType::from(0), HciEncryptionType::Disabled);
    assert_eq!(HciEncryptionType::from(1), HciEncryptionType::Point2Point);
    assert_eq!(HciEncryptionType::from(2), HciEncryptionType::P2PBroadcast);
    assert_eq!(HciEncryptionType::from(3), HciEncryptionType::Unknown);
    assert_eq!(HciConnectionRole::Slave.value(), 1);
}

#[test]
fn packet_from_bytes_splits_type_byte() {
    let p = HciPacket::<Vec<u8>>::from(vec![4, 0x0E, 1]);
    assert_eq!(p.p_type, HciPacketType::Event);
    assert_eq!(p.p_data, vec![0x0E, 1]);
    let p = HciPacket::<Vec<u8>>::from(vec![]);
    assert_eq!(p.p_type, HciPacketType::Unknown);
    assert!(p.p_data.is_empty());
}

#[test]
fn command_complete_fixed_offsets() {
    let e = HciEventCommandComplete::try_from(event(vec![0x0E, 4, 1, 0x03, 0x0C, 0x00])).unwrap();
    assert_eq!(e.header.evt_code, HciEventType::CommandComplete);
    assert_eq!(e.header.param_length, 4);
    assert_eq!(e.num_cmd_packets, 1);
    assert_eq!(e.op_code, HciCommand::Reset);
    assert_eq!(e.status, 0);
    let e = HciEventCommandComplete::try_from(event(vec![0x0E, 3, 2, 0x2E, 0xFC])).unwrap();
    assert_eq!(e.num_cmd_packets, 2);
    assert_eq!(e.op_code, HciCommand::DownloadMiniDriver);
    assert_eq!(e.status, 0);
}

#[test]
fn command_complete_other_bytes_come_back() {
    let bytes = vec![0x0F, 4, 0, 1, 0x03, 0x0C];
    let back = HciEventCommandComplete::try_from(event(bytes.clone())).unwrap_err();
    assert_eq!(back.p_type, HciPacketType::Event);
    assert_eq!(back.p_data, bytes);
    let short = vec![0x0E, 2, 1, 0x03];
    assert_eq!(HciEventCommandComplete::try_from(event(short.clone())).unwrap_err().p_data, short);
}

#[test]
fn command_status_fixed_offsets() {
    let e = HciEventCommandStatus::try_from(event(vec![0x0F, 4, 0x0C, 1, 0x01, 0x04])).unwrap();
    assert_eq!(e.header.evt_code, HciEventType::CommandStatus);
    assert_eq!(e.status, 0x0C);
    assert_eq!(e.num_cmd_packets, 1);
    assert_eq!(e.op_code, HciCommand::Inquiry);
    let bytes = vec![0x0E, 4, 1, 0x03, 0x0C, 0x00];
    let back = HciEventCommandStatus::try_from(HciPacket { p_type: HciPacketType::AclData, p_data: bytes.clone() })
        .unwrap_err();
    assert_eq!(back.p_type, HciPacketType::AclData);
    assert_eq!(back.p_data, bytes);
}

#[test]
fn connection_request_fields() {
    let r = HciEventConnectionRequest::try_from(event(vec![
        0x04, 10, 1, 2, 3, 4, 5, 6, 0x0C, 0x01, 0x02, 1,
    ]))
    .unwrap();
    assert_eq!(r.address(), [1, 2, 3, 4, 5, 6]);
    assert_eq!(r.device_class(), [0x0C, 0x01, 0x02]);
    assert_eq!(r.link_type(), HciConnectionLinkType::Acl);
    assert_eq!(r.header.param_length, 10);
    assert!(HciEventConnectionRequest::try_from(event(vec![0x04, 1, 2])).is_err());
}

#[test]
fn connection_complete_fields() {
    let c = HciEventConnectionComplete::try_from(event(vec![
        0x03, 11, 0, 0x2A, 0x01, 9, 8, 7, 6, 5, 4, 0, 1,
    ]))
    .unwrap();
    assert_eq!(c.status, 0);
    assert_eq!(c.handle, 0x012A);
    assert_eq!(c.address, [9, 8, 7, 6, 5, 4]);
    assert_eq!(c.link_type, HciConnectionLinkType::Sco);
    assert_eq!(c.encryption_mode, HciEncryptionType::Point2Point);
    assert!(HciEventConnectionComplete::try_from(event(vec![0x04, 11, 0, 0x2A, 0x01, 9, 8, 7, 6, 5, 4, 0, 1])).is_err());
}

#[test]
fn inquiry_complete_fields() {
    let c = HciEventInquiryComplete::try_from(event(vec![0x01, 1, 0x00])).unwrap();
    assert_eq!(c.status, 0);
    assert_eq!(c.header.evt_code, HciEventType::InquiryComplete);
    assert!(HciEventInquiryComplete::try_from(event(vec![0x02, 1, 0])).is_err());
}

#[test]
fn inquiry_response_records() {
    let mut d = vec![0x02, 29, 2];
    d.extend_from_slice(&[1, 2, 3, 4, 5, 6, 0x01, 0x34, 0x12, 0x0C, 0x01, 0x02, 0x78, 0x56]);
    d.extend_from_slice(&[6, 5, 4, 3, 2, 1, 0x02, 0x00, 0x00, 0x04, 0x21, 0x00, 0x01, 0x00]);
    let r = HciEventInquiryResponse::try_from(event(d)).unwrap();
    assert_eq!(r.num_devices, 2);
    assert_eq!(r.data.len(), 2);
    assert_eq!(r.data[0].address, [1, 2, 3, 4, 5, 6]);
    assert_eq!(r.data[0].page_scan_repetition, 1);
    assert_eq!(r.data[0].reserved, 0x1234);
    assert_eq!(r.data[0].class_of_device, [0x0C, 0x01, 0x02]);
    assert_eq!(r.data[0].clock_offset, 0x5678);
    assert_eq!(r.data[1].address, [6, 5, 4, 3, 2, 1]);
    assert_eq!(r.data[1].clock_offset, 1);
    // a count that runs past the bytes is not decoded
    let short = vec![0x02, 15, 2, 1, 2, 3, 4, 5, 6, 0, 0, 0, 0, 0, 0, 0, 0];
    assert_eq!(HciEventInquiryResponse::try_from(event(short.clone())).unwrap_err().p_data, short);
}

#[test]
fn command_sizes() {
    assert_eq!(get_command_size(&HciCommandReset::new()), 0);
    assert_eq!(get_command_size(&HciCommandWriteClassOfDevice::new([1, 2, 3])), 3);
    assert_eq!(get_command_size(&HciCommandInquiry::new(INQUIRY_LAP_GIAC, InquiryLength::Min, 5)), 5);
    assert_eq!(get_command_size(&HciCommandAcceptConnection::new([0; 6], HciConnectionRole::Master)), 7);
    assert_eq!(get_command_size(&HciCommandVendorBcm::new(0xFC4C, &[7; 255])), 255);
}
