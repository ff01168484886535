use ruspiro_btle::commands::{HciCommandVendorBcm, IsHciCommand};
use ruspiro_btle::connection::{HciConnectionLinkType, HciEncryptionType};
use ruspiro_btle::errors::{HciError, HciErrorKind};
use ruspiro_btle::firmware::UploadFirmwareThinkable;
use ruspiro_btle::hci::{DispatchOutcome, Hci};
use ruspiro_btle::hctl::{HcTransportLayer, HctlEvent};
use ruspiro_btle::init::{HciInitThinkable, InitProgress, SETTLE_DELAY_MS};
use ruspiro_btle::inquiry::InquiryState;
use ruspiro_btle::recv::RecvPacketThinkable;
use ruspiro_btle::send::{send_command, SendCommandThinkable};
use ruspiro_btle::task::Conclusion;

/// Records what is sent; refuses to send while `fail` is set.
struct Wire {
    sent: Vec<Vec<u8>>,
    fail: bool,
}

impl HcTransportLayer for Wire {
    fn send_packet(&mut self, data: &[u8]) -> Result<usize, HciError> {
        if self.fail {
            return Err(HciError::new(HciErrorKind::Transport));
        }
        self.sent.push(data.to_vec());
        Ok(data.len())
    }

    fn recv_packet(&mut self, _buffer: &mut [u8]) -> Result<usize, HciError> {
        Ok(0)
    }

    fn register_evt_handler<F: FnMut() + 'static + Send>(&mut self, _event: HctlEvent, _function: F) {}
}

fn session() -> Hci<Wire> {
    Hci::new(Wire { sent: Vec::new(), fail: false })
}

/// An event frame as it arrives on the wire.
fn frame(code: u8, params: &[u8]) -> Vec<u8> {
    let mut f = vec![4, code, params.len() as u8];
    f.extend_from_slice(params);
    f
}

fn complete(op: u16, credit: u8) -> Vec<u8> {
    frame(0x0E, &[credit, (op & 0xFF) as u8, (op >> 8) as u8, 0])
}

fn status(op: u16, status: u8, credit: u8) -> Vec<u8> {
    frame(0x0F, &[status, credit, (op & 0xFF) as u8, (op >> 8) as u8])
}

fn ok() -> Conclusion<Result<(), HciError>> {
    Conclusion::Ready(Ok(()))
}

#[test]
fn send_waits_for_its_command_complete() {
    let mut hci = session();
    let mut recv = hci.serve();
    let mut t = hci.reset();
    assert_eq!(t.think(&mut hci, 1), Conclusion::Pending);
    assert_eq!(hci.transport.sent, vec![vec![1, 0x03, 0x0C, 0]]);
    assert_eq!(hci.accept_commands(), 0);
    assert_eq!(t.think(&mut hci, 1), Conclusion::Pending);
    assert_eq!(recv.think(&mut hci, &complete(0x0C03, 3)), Conclusion::Pending);
    assert_eq!(hci.take_wakes(), vec![1]);
    assert_eq!(t.think(&mut hci, 1), ok());
    assert_eq!(hci.accept_commands(), 3);
    assert!(hci.command_response.is_empty());
}

#[test]
fn no_credit_no_transmission() {
    let mut hci = session();
    let mut recv = hci.serve();
    let mut a = hci.set_class_of_device([1, 2, 3]);
    let mut b = hci.set_local_name(b"pi");
    assert_eq!(a.think(&mut hci, 1), Conclusion::Pending);
    assert_eq!(b.think(&mut hci, 2), Conclusion::Pending);
    assert_eq!(hci.transport.sent.len(), 1);
    assert_eq!(hci.accept_commands(), 0);
    recv.think(&mut hci, &complete(0x0C24, 1));
    assert_eq!(a.think(&mut hci, 1), ok());
    // the queued sender is woken once credit came back
    assert_eq!(hci.take_wakes(), vec![1, 2]);
    assert_eq!(b.think(&mut hci, 2), Conclusion::Pending);
    assert_eq!(hci.transport.sent.len(), 2);
    assert_eq!(hci.transport.sent[1], vec![1, 0x13, 0x0C, 2, b'p', b'i']);
    assert_eq!(hci.accept_commands(), 0);
}

#[test]
fn credit_is_replaced_not_added() {
    let mut hci = session();
    let mut recv = hci.serve();
    let mut t = send_command(HciCommandVendorBcm::new(0xFC4C, &[1]));
    t.think(&mut hci, 5);
    recv.think(&mut hci, &status(0xFC4C, 0, 2));
    assert_eq!(t.think(&mut hci, 5), ok());
    assert_eq!(hci.accept_commands(), 2);
}

#[test]
fn second_command_of_same_opcode_waits() {
    let mut hci = session();
    let mut recv = hci.serve();
    recv.think(&mut hci, &complete(0x0000, 4));
    assert_eq!(hci.accept_commands(), 1);
    let mut a = hci.reset();
    let mut b = hci.reset();
    a.think(&mut hci, 1);
    hci.accept_commands = 2;
    assert_eq!(b.think(&mut hci, 2), Conclusion::Pending);
    assert_eq!(hci.transport.sent.len(), 1);
}

#[test]
fn command_status_failure_carries_code() {
    let mut hci = session();
    let mut recv = hci.serve();
    let mut t = hci.set_scan_enable(ruspiro_btle::commands::ScanEnableType::Page);
    t.think(&mut hci, 1);
    assert_eq!(hci.transport.sent[0], vec![1, 0x1A, 0x0C, 1, 2]);
    recv.think(&mut hci, &status(0x0C1A, 0x12, 1));
    assert_eq!(
        t.think(&mut hci, 1),
        Conclusion::Ready(Err(HciError::new(HciErrorKind::CommandFailed { op_code: 0x0C1A, status: 0x12 })))
    );
    assert_eq!(hci.accept_commands(), 1);
    assert!(hci.command_response.is_empty());
}

#[test]
fn transport_failure_resolves_the_task() {
    let mut hci = Hci::new(Wire { sent: Vec::new(), fail: true });
    let mut t = hci.reset();
    assert_eq!(t.think(&mut hci, 1), Conclusion::Ready(Err(HciError::new(HciErrorKind::Transport))));
    assert_eq!(hci.accept_commands(), 1);
    assert!(hci.command_response.is_empty());
}

#[test]
fn lost_entry_is_reported() {
    let mut hci = session();
    let mut t = hci.reset();
    t.think(&mut hci, 1);
    hci.command_response.clear();
    assert_eq!(t.think(&mut hci, 1), Conclusion::Ready(Err(HciError::new(HciErrorKind::ResponseLost))));
}

#[test]
fn exactly_one_waiter_is_woken_and_a_repeat_is_dropped() {
    let mut hci = session();
    let mut recv = hci.serve();
    let mut t: SendCommandThinkable = hci.reset();
    t.think(&mut hci, 42);
    assert_eq!(hci.dispatch_event(complete(0x0C03, 1)[1..].to_vec()), DispatchOutcome::Delivered(42));
    assert_eq!(hci.take_wakes(), vec![42]);
    assert_eq!(t.think(&mut hci, 42), ok());
    assert!(!hci.command_response.contains_key(&0x0C03));
    assert_eq!(recv.think(&mut hci, &complete(0x0C03, 1)), Conclusion::Pending);
    assert!(hci.take_wakes().is_empty());
    assert_eq!(hci.dispatch_event(complete(0x0C03, 1)[1..].to_vec()), DispatchOutcome::Unclaimed);
    assert_eq!(hci.dispatch_event(vec![0x0E]), DispatchOutcome::Malformed);
}

#[test]
fn unknown_packet_type_halts_the_dispatcher() {
    let mut hci = session();
    let mut recv = hci.serve();
    let mut t = hci.reset();
    t.think(&mut hci, 1);
    let mut data = vec![0x07];
    data.extend_from_slice(&complete(0x0C03, 1));
    assert_eq!(
        recv.think(&mut hci, &data),
        Conclusion::Ready(HciError::new(HciErrorKind::Desynchronized { packet_type: 7 }))
    );
    assert_eq!(recv.halted, Some(7));
    assert!(hci.take_wakes().is_empty());
    assert!(hci.command_response.get(&0x0C03).unwrap().response.is_none());
}

#[test]
fn zero_bytes_between_frames_are_ignored_and_frames_may_be_split() {
    let mut hci = session();
    let mut recv = hci.serve();
    let mut t = hci.reset();
    t.think(&mut hci, 1);
    let f = complete(0x0C03, 1);
    let mut first = vec![0, 0];
    first.extend_from_slice(&f[..3]);
    assert_eq!(recv.think(&mut hci, &first), Conclusion::Pending);
    assert!(hci.take_wakes().is_empty());
    assert_eq!(recv.think(&mut hci, &f[3..]), Conclusion::Pending);
    assert_eq!(hci.take_wakes(), vec![1]);
}

#[test]
fn other_packet_types_are_read_and_dropped() {
    let mut hci = session();
    let mut recv = hci.serve();
    let mut t = hci.reset();
    t.think(&mut hci, 1);
    let mut data = vec![2, 0x01, 0x20, 0x02, 0x00, 0xAA, 0xBB];
    data.extend_from_slice(&[1, 0x03, 0x0C, 1, 0x0E]);
    data.extend_from_slice(&[3, 0x01, 0x00, 2, 0x0E, 0x0E]);
    data.extend_from_slice(&complete(0x0C03, 1));
    assert_eq!(recv.think(&mut hci, &data), Conclusion::Pending);
    assert_eq!(hci.take_wakes(), vec![1]);
    assert!(recv.buf.is_empty());
}

#[test]
fn event_with_no_waiter_is_dropped() {
    let mut hci = session();
    let mut recv = hci.serve();
    let req = frame(0x04, &[1, 2, 3, 4, 5, 6, 0, 0, 0, 1]);
    assert_eq!(recv.think(&mut hci, &req), Conclusion::Pending);
    assert!(hci.take_wakes().is_empty());
    assert_eq!(recv.halted, None);
}

fn blob(chunks: &[(u16, &[u8])]) -> Vec<u8> {
    let mut b = Vec::new();
    for (op, payload) in chunks {
        b.push((op & 0xFF) as u8);
        b.push((op >> 8) as u8);
        b.push(payload.len() as u8);
        b.extend_from_slice(payload);
    }
    b
}

#[test]
fn firmware_upload_sends_every_chunk_in_order() {
    let mut hci = session();
    let mut recv = hci.serve();
    let fw = blob(&[(0xFC4C, &[0xAA, 0xBB]), (0xFC4C, &[0xCC]), (0xFC4E, &[])]);
    let mut up = UploadFirmwareThinkable::new(fw);
    let mut result = None;
    for _ in 0..20 {
        match up.think(&mut hci, 7) {
            Conclusion::Ready(r) => {
                result = Some(r);
                break;
            }
            Conclusion::Pending => {
                if hci.take_wakes().is_empty() {
                    let op = hci.transport.sent.last().map(|p| p[1] as u16 | (p[2] as u16) << 8).unwrap();
                    recv.think(&mut hci, &complete(op, 1));
                    hci.take_wakes();
                }
            }
        }
    }
    assert_eq!(result, Some(Ok(())));
    assert_eq!(
        hci.transport.sent,
        vec![vec![1, 0x4C, 0xFC, 2, 0xAA, 0xBB], vec![1, 0x4C, 0xFC, 1, 0xCC], vec![1, 0x4E, 0xFC, 0]]
    );
}

#[test]
fn firmware_upload_stops_at_failing_chunk() {
    let mut hci = session();
    let mut recv = hci.serve();
    let fw = blob(&[(0xFC4C, &[1]), (0xFC4C, &[2]), (0xFC4E, &[3])]);
    let mut up = UploadFirmwareThinkable::new(fw);
    assert_eq!(up.think(&mut hci, 7), Conclusion::Pending);
    recv.think(&mut hci, &complete(0xFC4C, 1));
    assert_eq!(up.think(&mut hci, 7), Conclusion::Pending);
    assert_eq!(hci.take_wakes(), vec![7, 7]);
    assert_eq!(up.think(&mut hci, 7), Conclusion::Pending);
    assert_eq!(hci.transport.sent.len(), 2);
    recv.think(&mut hci, &status(0xFC4C, 0x1F, 1));
    assert_eq!(
        up.think(&mut hci, 7),
        Conclusion::Ready(Err(HciError::new(HciErrorKind::CommandFailed { op_code: 0xFC4C, status: 0x1F })))
    );
    assert_eq!(hci.transport.sent.len(), 2);
}

#[test]
fn firmware_with_truncated_chunk_is_refused() {
    let mut hci = session();
    let mut up = UploadFirmwareThinkable::new(vec![0x4C, 0xFC, 5, 1]);
    assert_eq!(
        up.think(&mut hci, 1),
        Conclusion::Ready(Err(HciError::new(HciErrorKind::MalformedFirmware { offset: 0 })))
    );
    assert!(hci.transport.sent.is_empty());
}

#[test]
fn empty_firmware_is_uploaded_at_once() {
    let mut hci = session();
    let mut up = UploadFirmwareThinkable::new(Vec::new());
    assert_eq!(up.think(&mut hci, 1), ok());
    assert!(hci.transport.sent.is_empty());
}

#[test]
fn initialization_runs_every_stage_once() {
    let mut hci = session();
    let mut recv = hci.serve();
    let fw = blob(&[(0xFC4C, &[1, 2]), (0xFC4E, &[3])]);
    let mut init: HciInitThinkable = hci.initialize(fw);
    let mut readies = 0;
    let mut sleeps = 0;
    let mut answered = 0;
    for _ in 0..30 {
        match init.think(&mut hci, 3) {
            InitProgress::Ready(r) => {
                assert_eq!(r, Ok(()));
                readies += 1;
                break;
            }
            InitProgress::Sleep(ms) => {
                assert_eq!(ms, SETTLE_DELAY_MS);
                sleeps += 1;
                init.settle_elapsed();
            }
            InitProgress::Pending => {
                if hci.take_wakes().is_empty() && hci.transport.sent.len() > answered {
                    let p = hci.transport.sent.last().unwrap().clone();
                    answered = hci.transport.sent.len();
                    recv.think(&mut hci, &complete(p[1] as u16 | (p[2] as u16) << 8, 1));
                    hci.take_wakes();
                }
            }
        }
    }
    assert_eq!(readies, 1);
    assert_eq!(sleeps, 1);
    assert_eq!(
        hci.transport.sent,
        vec![
            vec![1, 0x03, 0x0C, 0],
            vec![1, 0x2E, 0xFC, 0],
            vec![1, 0x4C, 0xFC, 2, 1, 2],
            vec![1, 0x4E, 0xFC, 1, 3],
        ]
    );
}

#[test]
fn initialization_aborts_on_failed_reset() {
    let mut hci = session();
    let mut recv = hci.serve();
    let mut init = hci.initialize(Vec::new());
    assert!(matches!(init.think(&mut hci, 3), InitProgress::Pending));
    recv.think(&mut hci, &status(0x0C03, 0x03, 1));
    match init.think(&mut hci, 3) {
        InitProgress::Ready(r) => assert_eq!(r, Err(HciError::new(HciErrorKind::CommandFailed { op_code: 0x0C03, status: 3 }))),
        other => panic!("unexpected {:?}", other),
    }
    assert_eq!(hci.transport.sent.len(), 1);
}

#[test]
fn upload_firmware_starts_with_mini_driver() {
    let mut hci = session();
    let mut up = hci.upload_firmware(Vec::new());
    assert!(matches!(up.think(&mut hci, 3), InitProgress::Pending));
    assert_eq!(hci.transport.sent, vec![vec![1, 0x2E, 0xFC, 0]]);
}

fn record(tag: u8) -> [u8; 14] {
    [tag, 1, 2, 3, 4, 5, 1, 0, 0, 0x0C, 0x01, 0x02, tag, 0]
}

fn result_frame(tags: &[u8]) -> Vec<u8> {
    let mut params = vec![tags.len() as u8];
    for t in tags {
        params.extend_from_slice(&record(*t));
    }
    frame(0x02, &params)
}

#[test]
fn inquiry_gathers_results_in_arrival_order() {
    let mut hci = session();
    let mut recv = hci.serve();
    let mut inq = hci.scan_devices();
    assert!(matches!(inq.think(&mut hci, 8), Conclusion::Pending));
    assert_eq!(hci.transport.sent, vec![vec![1, 0x01, 0x04, 5, 0x33, 0x8B, 0x9E, 4, 5]]);
    recv.think(&mut hci, &status(0x0401, 0, 1));
    assert!(matches!(inq.think(&mut hci, 8), Conclusion::Pending));
    assert_eq!(inq.state, InquiryState::Running);
    recv.think(&mut hci, &result_frame(&[10, 11]));
    assert!(matches!(inq.think(&mut hci, 8), Conclusion::Pending));
    assert_eq!(inq.devices.len(), 2);
    recv.think(&mut hci, &result_frame(&[]));
    assert!(matches!(inq.think(&mut hci, 8), Conclusion::Pending));
    assert_eq!(inq.devices.len(), 2);
    recv.think(&mut hci, &result_frame(&[12, 13, 14, 15, 16]));
    assert!(matches!(inq.think(&mut hci, 8), Conclusion::Pending));
    assert_eq!(inq.devices.len(), 7);
    // a spurious wake changes nothing
    assert!(matches!(inq.think(&mut hci, 8), Conclusion::Pending));
    assert_eq!(inq.devices.len(), 7);
    recv.think(&mut hci, &frame(0x01, &[0]));
    assert_eq!(hci.take_wakes(), vec![8, 8, 8, 8, 8]);
    match inq.think(&mut hci, 8) {
        Conclusion::Ready(Ok(list)) => {
            assert_eq!(list.len(), 7);
            let tags: Vec<u8> = list.iter().map(|d| d.address[0]).collect();
            assert_eq!(tags, vec![10, 11, 12, 13, 14, 15, 16]);
            assert_eq!(list[3].clock_offset, 13);
        }
        other => panic!("unexpected {:?}", other),
    }
    assert!(hci.event_notify.is_empty());
}

#[test]
fn inquiry_refuses_a_taken_registration() {
    let mut hci = session();
    let mut recv = hci.serve();
    assert!(hci.register_event(0x02, 99));
    let mut inq = hci.scan_devices();
    inq.think(&mut hci, 8);
    recv.think(&mut hci, &complete(0x0401, 1));
    match inq.think(&mut hci, 8) {
        Conclusion::Ready(Err(e)) => assert_eq!(e, HciError::new(HciErrorKind::Busy)),
        other => panic!("unexpected {:?}", other),
    }
}

#[test]
fn connections_are_accepted_as_slave() {
    let mut hci = session();
    let mut recv = hci.serve();
    let mut conn = hci.serve_connections();
    let first = conn.think(&mut hci, 9);
    assert!(first.accepts.is_empty());
    assert!(!conn.first);
    recv.think(&mut hci, &frame(0x04, &[1, 2, 3, 4, 5, 6, 0x0C, 0x01, 0x02, 1]));
    recv.think(&mut hci, &frame(0x03, &[0, 0x2A, 0x00, 1, 2, 3, 4, 5, 6, 1, 0]));
    assert_eq!(hci.take_wakes(), vec![9, 9]);
    let act = conn.think(&mut hci, 9);
    assert_eq!(act.accepts.len(), 1);
    assert_eq!(act.accepts[0].packet, Some(vec![1, 0x09, 0x04, 7, 1, 2, 3, 4, 5, 6, 1]));
    assert_eq!(act.completions.len(), 1);
    assert_eq!(act.completions[0].handle, 0x2A);
    assert_eq!(act.completions[0].link_type, HciConnectionLinkType::Acl);
    assert_eq!(act.completions[0].encryption_mode, HciEncryptionType::Disabled);
    let mut accept = act.accepts.into_iter().next().unwrap();
    assert_eq!(accept.think(&mut hci, 20), Conclusion::Pending);
    assert_eq!(hci.transport.sent, vec![vec![1, 0x09, 0x04, 7, 1, 2, 3, 4, 5, 6, 1]]);
    let again = conn.think(&mut hci, 9);
    assert!(again.accepts.is_empty());
    assert!(again.completions.is_empty());
}

#[test]
fn vendor_command_size_counts_parameters() {
    let c = HciCommandVendorBcm::new(0xFC4C, &[0; 200]);
    assert_eq!(c.size(), 203);
    assert_eq!(c.parameters().len(), 200);
}

#[test]
fn local_name_of_largest_size() {
    let name = [b'a'; 248];
    let hci = session();
    let t = hci.set_local_name(&name);
    assert_eq!(t.packet.as_ref().unwrap().len(), 4 + 248);
    assert_eq!(t.packet.as_ref().unwrap()[3], 248);
}

#[test]
fn inquiry_complete_ends_with_devices_gathered_before() {
    let mut hci = session();
    let mut recv = hci.serve();
    let mut inq = hci.scan_devices();
    inq.think(&mut hci, 8);
    recv.think(&mut hci, &status(0x0401, 0, 1));
    inq.think(&mut hci, 8);
    recv.think(&mut hci, &result_frame(&[1]));
    inq.think(&mut hci, 8);
    let mut late = result_frame(&[2, 3]);
    late.extend_from_slice(&frame(0x01, &[0]));
    recv.think(&mut hci, &late);
    match inq.think(&mut hci, 8) {
        Conclusion::Ready(Ok(list)) => {
            assert_eq!(list.len(), 1);
            assert_eq!(list[0].address[0], 1);
        }
        other => panic!("unexpected {:?}", other),
    }
    assert!(hci.event_notify.is_empty());
}

#[test]
fn connection_acceptor_waits_for_a_free_registration() {
    let mut hci = session();
    let mut recv = hci.serve();
    assert!(hci.register_event(0x03, 77));
    let mut conn = hci.serve_connections();
    conn.think(&mut hci, 9);
    assert!(conn.first);
    assert!(!hci.event_notify.contains_key(&0x04));
    hci.event_notify.remove(&0x03);
    conn.think(&mut hci, 9);
    assert!(!conn.first);
    recv.think(&mut hci, &frame(0x04, &[1, 2, 3, 4, 5, 6, 0x0C, 0x01, 0x02, 1]));
    assert_eq!(conn.think(&mut hci, 9).accepts.len(), 1);
    assert!(conn.think(&mut hci, 9).accepts.is_empty());
}
