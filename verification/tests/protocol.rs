use rover_link::ack::{ack_walk, compute_ack, sort_ids, AckOutcome};
use rover_link::bytes_be::{byte_slice_to_u16, byte_slice_to_u32};
use rover_link::checksum::Checksum;
use rover_link::cmd::Cmd;
use rover_link::errors::FrameError;
use rover_link::frame::Frame;
use rover_link::framestack::FrameStack;
use rover_link::logger::{Logger, Severity};
use rover_link::model::{invalid_msg, AuthProvider, Message, Project, User};
use rover_link::procs::{proc_rx_logs, proc_rx_logs_process_log};
use rover_link::session::{Session, SessionAction, SessionEvent, SessionPhase};
use rover_link::values::{
    degrees_to_fixed, normalize_degrees, NetworkId, Position, Record, StepSize, BSSID, RSSI, SSID,
};

fn ready_frame(id: u32) -> Frame {
    Frame::from_cmd(Cmd::Ready, id).unwrap()
}

fn ack_frame(acked: u32, id: u32) -> Frame {
    Frame::from_cmd(Cmd::Ack { frame_id: acked }, id).unwrap()
}

fn sample_project() -> Project {
    Project {
        project_id: 7,
        project_title: String::from("office scan"),
        project_description: String::from("third floor"),
        in_capture: true,
        creator_user_id: 3,
        image_id: 1,
        project_data: String::from("{}"),
    }
}

fn expect_transmit(action: SessionAction) -> Frame {
    match action {
        SessionAction::Transmit(f) => f,
        other => panic!("expected a transmit action, got {:?}", other),
    }
}

/// Drives a fresh session through port acquisition, handshake, the
/// start-capture order and the reset procedure, up to the capture loop.
fn session_in_capture() -> Session {
    let mut s = Session::new();
    let sot = expect_transmit(s.step(SessionEvent::PortOpened));
    assert_eq!(s.step(SessionEvent::TxCompleted(sot)), SessionAction::Receive);
    let reset = expect_transmit(s.step(SessionEvent::FrameArrived(ack_frame(0, 1))));
    assert_eq!(s.step(SessionEvent::TxCompleted(reset)), SessionAction::Receive);
    assert_eq!(
        s.step(SessionEvent::FrameArrived(ack_frame(1, 2))),
        SessionAction::PollMessages
    );
    assert_eq!(s.phase, SessionPhase::AwaitingCaptureOrder);
    let params = expect_transmit(
        s.step(SessionEvent::MessageArrived(Message::StartCapture(sample_project()))),
    );
    assert_eq!(s.step(SessionEvent::TxCompleted(params)), SessionAction::Receive);
    assert_eq!(
        s.step(SessionEvent::FrameArrived(ack_frame(2, 3))),
        SessionAction::Receive
    );
    let ready = expect_transmit(s.step(SessionEvent::FrameArrived(ready_frame(4))));
    assert_eq!(s.step(SessionEvent::TxCompleted(ready)), SessionAction::Receive);
    assert_eq!(s.phase, SessionPhase::Capturing);
    s
}

#[test]
fn bit_flip_breaks_frame() {
    // An otherwise-valid encoded frame must be rejected when any single
    // bit of it is flipped: the checksum binds header and payload, and a
    // flip elsewhere invalidates the structure before the checksum.
    let bytes: [u8; 12] = [0x40, 0x04, 0x00, 0x00, 0x00, 0x0A, 0x00, 0x00, 0x00, 0x05, 0x11, 0x18];
    assert!(Frame::parse(&bytes).is_ok());
    for byte_index in 0..bytes.len() {
        for bit in 0..8 {
            let mut mutated = bytes;
            mutated[byte_index] ^= 1u8 << bit;
            assert!(
                Frame::parse(&mutated).is_err(),
                "flip of bit {} in byte {} went unnoticed",
                bit,
                byte_index
            );
        }
    }
}

#[test]
fn rssi_range_boundaries() {
    assert!(RSSI::from_int(-127).is_ok());
    assert!(RSSI::from_int(0).is_ok());
    assert_eq!(RSSI::from_int(-128), Err(FrameError::RSSIValueOutOfRange));
    assert_eq!(RSSI::from_int(1), Err(FrameError::RSSIValueOutOfRange));
    assert_eq!(RSSI::from_int(-82).unwrap().as_bytes(), [0b1010_1110]);
}

#[test]
fn degree_normalization() {
    assert_eq!(normalize_degrees(0), 0);
    assert_eq!(normalize_degrees(360), 0);
    assert_eq!(normalize_degrees(-10), 350);
    assert_eq!(normalize_degrees(720), 0);
    assert_eq!(normalize_degrees(90), 90);

    assert_eq!(degrees_to_fixed(90), (90u64 * 0xffff_ffffu64 / 360) as u32);
    assert_eq!(degrees_to_fixed(-10), (350u64 * 0xffff_ffffu64 / 360) as u32);
    assert_eq!(degrees_to_fixed(720), 0);

    let p = Position::from_degrees(10, 0);
    assert_eq!(
        p,
        Position::from_int((10u64 * 0xffff_ffffu64 / 360) as u32, 0)
    );
    let s = StepSize::from_degrees(80, 180);
    assert_eq!(s.pitch(), (80u64 * 0xffff_ffffu64 / 360) as u32);
    assert_eq!(s.yaw(), (180u64 * 0xffff_ffffu64 / 360) as u32);
}

#[test]
fn ack_algorithm_gap() {
    // watermark = 0, received ids {0, 1, 2, 4, 5}: ids 0..=2 are
    // contiguous, 3 is missing, so the minimal missing range [3, 4) is
    // requested and the watermark stays put.
    let mut stack = FrameStack::new();
    for id in [0u32, 1, 2, 4, 5] {
        stack.append_rx_frame(ready_frame(id));
    }
    assert_eq!(
        compute_ack(&stack),
        AckOutcome::Retransmit { frame_id_start: 3, frame_id_end: 4 }
    );
    assert_eq!(stack.get_remote_ackd_frame_id(), 0);
}

#[test]
fn ack_algorithm_contiguous() {
    // watermark = 0, received ids {0, 1, 2}: everything is contiguous,
    // the next expected id 3 is acknowledged and the watermark advances.
    let mut stack = FrameStack::new();
    for id in [0u32, 1, 2] {
        stack.append_rx_frame(ready_frame(id));
    }
    assert_eq!(compute_ack(&stack), AckOutcome::Acknowledge { frame_id: 3 });
    stack.set_remote_ackd_frame_id(3);

    // A repeated invocation never lowers the watermark.
    assert_eq!(compute_ack(&stack), AckOutcome::Acknowledge { frame_id: 3 });
    assert_eq!(stack.get_remote_ackd_frame_id(), 3);
}

#[test]
fn ack_walk_on_unsorted_input() {
    let ids = vec![5u32, 1, 4, 0, 2];
    let sorted = sort_ids(&ids);
    assert_eq!(sorted, vec![0u32, 1, 2, 4, 5]);
    assert_eq!(
        ack_walk(&sorted, 0),
        AckOutcome::Retransmit { frame_id_start: 3, frame_id_end: 4 }
    );
    assert_eq!(ack_walk(&sorted, 6), AckOutcome::Acknowledge { frame_id: 6 });
}

#[test]
fn end_to_end_ack_bytes() {
    // Encoding Ack{frame_id: 5} under frame id 10 yields the fixed wire
    // bytes, and decoding those bytes reconstructs the identical value.
    let expected: [u8; 12] = [0x40, 0x04, 0x00, 0x00, 0x00, 0x0A, 0x00, 0x00, 0x00, 0x05, 0x11, 0x18];
    let frame = Frame::from_cmd(Cmd::Ack { frame_id: 5 }, 10).unwrap();
    assert_eq!(frame.as_bytes().unwrap(), expected.to_vec());
    let (decoded, consumed) = Frame::parse(&expected).unwrap();
    assert_eq!(decoded, frame);
    assert_eq!(consumed, 12);
}

#[test]
fn capture_loop_aggregation() {
    let mut s = session_in_capture();
    let position = Position::from_int(1, 2);
    let rec_a = Record::from_components(NetworkId::from_int(9), RSSI::from_int(-40).unwrap());
    let rec_b = Record::from_components(NetworkId::from_int(9), RSSI::from_int(-60).unwrap());

    let ssid_first = Frame::from_cmd(
        Cmd::AddSSID { id: NetworkId::from_int(1), ssid: SSID::new(String::from("alpha")) },
        5,
    ).unwrap();
    let ssid_second = Frame::from_cmd(
        Cmd::AddSSID { id: NetworkId::from_int(1), ssid: SSID::new(String::from("beta")) },
        6,
    ).unwrap();
    let bssid = Frame::from_cmd(
        Cmd::AddBSSID {
            id: NetworkId::from_int(1),
            bssid: BSSID::new([0xAA, 0xBB, 0xCC, 0xDD, 0xEE, 0xFF]),
        },
        7,
    ).unwrap();
    let records_first = Frame::from_cmd(
        Cmd::RecordRSSI { position, record_count: 1, records: vec![rec_a] },
        8,
    ).unwrap();
    let records_second = Frame::from_cmd(
        Cmd::RecordRSSI { position, record_count: 1, records: vec![rec_b] },
        9,
    ).unwrap();
    let end = Frame::from_cmd(Cmd::EndOfTransmission, 10).unwrap();

    assert_eq!(s.step(SessionEvent::FrameArrived(ssid_first)), SessionAction::Receive);
    assert_eq!(s.step(SessionEvent::FrameArrived(ssid_second)), SessionAction::Receive);
    assert_eq!(s.step(SessionEvent::FrameArrived(bssid)), SessionAction::Receive);
    assert_eq!(s.step(SessionEvent::FrameArrived(records_first)), SessionAction::Receive);
    assert_eq!(s.step(SessionEvent::FrameArrived(records_second)), SessionAction::Receive);
    assert_eq!(s.step(SessionEvent::FrameArrived(end)), SessionAction::PersistData);
    assert_eq!(s.phase, SessionPhase::Persisting);

    // exactly the last-seen SSID and BSSID per id
    assert_eq!(s.aggregate.ssids.len(), 1);
    assert_eq!(s.aggregate.ssids.get(&1).unwrap().name(), "beta");
    assert_eq!(
        s.aggregate.bssids.get(&1).unwrap().as_bytes(),
        [0xAA, 0xBB, 0xCC, 0xDD, 0xEE, 0xFF]
    );

    // the union of the records for the position, in arrival order
    let key: u64 = (1u64 << 32) | 2u64;
    assert_eq!(s.aggregate.rssi_records.get(&key).unwrap(), &vec![rec_a, rec_b]);

    // termination: persistence, then the shutdown announcement
    assert_eq!(s.step(SessionEvent::PersistCompleted), SessionAction::AnnounceShutdown);
    assert_eq!(s.step(SessionEvent::ShutdownSent), SessionAction::Stop);
    assert_eq!(s.phase, SessionPhase::Done);
}

#[test]
fn handshake_retransmits_until_answered() {
    let mut s = Session::new();
    let sot = expect_transmit(s.step(SessionEvent::PortOpened));
    assert_eq!(s.step(SessionEvent::TxCompleted(sot)), SessionAction::Receive);
    assert_eq!(s.phase, SessionPhase::HandshakeAwaitAck);

    // the first five transmissions get no reply
    for attempt in 1..=5u32 {
        let again = expect_transmit(s.step(SessionEvent::RxFailed));
        assert_eq!(again.cmd, Cmd::StartOfTransmission);
        assert_eq!(s.handshake_retransmits, attempt);
    }

    // the sixth is answered, and the handshake proceeds without aborting
    let reset = expect_transmit(s.step(SessionEvent::FrameArrived(ack_frame(0, 1))));
    assert_eq!(reset.cmd, Cmd::Reset);
    assert_eq!(s.handshake_retransmits, 5);
    assert_eq!(s.phase, SessionPhase::HandshakeSendReset);
}

#[test]
fn capture_request_ack_replies() {
    let mut s = session_in_capture();
    // receive frames 0..=2, then a request for acknowledgement
    for id in 0..3u32 {
        assert_eq!(
            s.step(SessionEvent::FrameArrived(ready_frame(id))),
            SessionAction::Receive
        );
    }
    // the rx history already holds envelope ids 1..=4 from the
    // handshake and reset exchanges, so ids 0..=4 are now contiguous
    let request = Frame::from_cmd(Cmd::RequestAck { frame_id: 0 }, 3).unwrap();
    let reply = expect_transmit(s.step(SessionEvent::FrameArrived(request)));
    assert_eq!(reply.cmd, Cmd::Ack { frame_id: 5 });
    // the watermark advances only once the acknowledgement is on the wire
    assert_eq!(s.stack.get_remote_ackd_frame_id(), 0);
    assert_eq!(s.step(SessionEvent::TxCompleted(reply)), SessionAction::Receive);
    assert_eq!(s.stack.get_remote_ackd_frame_id(), 5);

    // now drop id 5, receive 6, and the gap is requested instead
    assert_eq!(
        s.step(SessionEvent::FrameArrived(ready_frame(6))),
        SessionAction::Receive
    );
    let request = Frame::from_cmd(Cmd::RequestAck { frame_id: 0 }, 7).unwrap();
    let reply = expect_transmit(s.step(SessionEvent::FrameArrived(request)));
    assert_eq!(reply.cmd, Cmd::RequestRetransmit { frame_id_start: 5, frame_id_end: 6 });
    assert_eq!(s.step(SessionEvent::TxCompleted(reply)), SessionAction::Receive);
    assert_eq!(s.stack.get_remote_ackd_frame_id(), 5);
}

#[test]
fn capture_forwards_received_logs() {
    let mut s = session_in_capture();
    let before = s.logger.get_logs().len();
    let logs = Frame::from_cmd(
        Cmd::TransmitLogs {
            logs: String::from("{\"logs\":[{\"severity\":3,\"msg\":\"measuring\"},{\"severity\":99,\"msg\":\"skipped\"}]}"),
        },
        11,
    ).unwrap();
    assert_eq!(s.step(SessionEvent::FrameArrived(logs)), SessionAction::Receive);
    let entries = s.logger.get_logs();
    assert_eq!(entries.len(), before + 1);
    assert_eq!(entries.last().unwrap().severity, Severity::INFO);
    assert_eq!(entries.last().unwrap().msg, "measuring");
}

#[test]
fn status_requests_are_answered() {
    let mut s = Session::new();
    assert_eq!(
        s.step(SessionEvent::MessageArrived(Message::BackendStatusRequest)),
        SessionAction::ReplyStatus(false)
    );
    let mut s = session_in_capture();
    assert_eq!(
        s.step(SessionEvent::MessageArrived(Message::BackendStatusRequest)),
        SessionAction::ReplyStatus(true)
    );
    // a BackendReady message can only have been sent by the controller
    // itself: it is logged as an illegal state and dropped
    let before = s.logger.get_logs().len();
    s.step(SessionEvent::MessageArrived(Message::BackendReady(true)));
    assert_eq!(s.logger.get_logs().len(), before + 1);
    assert_eq!(s.phase, SessionPhase::Capturing);
}

#[test]
fn decode_rejects_malformed_json_payloads() {
    // opcode 0xD with UTF-8 text that is not JSON
    let mut head = vec![0xD0u8, 0x05, 0x00, 0x00, 0x00, 0x01];
    head.extend_from_slice(b"hello");
    let ck = Checksum::from_bytes(&head).as_bytes();
    head.extend_from_slice(&ck);
    assert_eq!(Frame::parse(&head), Err(FrameError::InvalidJson));

    // opcode 0xD with bytes that are not UTF-8 at all
    let mut head = vec![0xD0u8, 0x02, 0x00, 0x00, 0x00, 0x01];
    head.extend_from_slice(&[0xFF, 0xFE]);
    let ck = Checksum::from_bytes(&head).as_bytes();
    head.extend_from_slice(&ck);
    assert_eq!(Frame::parse(&head), Err(FrameError::InvalidUTF8));

    // opcode 0xC whose body after the position is not UTF-8
    let mut head = vec![0xC0u8, 0x0A, 0x00, 0x00, 0x00, 0x01];
    head.extend_from_slice(&[0, 0, 0, 1, 0, 0, 0, 2, 0xFF, 0xFE]);
    let ck = Checksum::from_bytes(&head).as_bytes();
    head.extend_from_slice(&ck);
    assert_eq!(Frame::parse(&head), Err(FrameError::ValueOutOfRange));

    // opcode 0xC whose body is UTF-8 but not JSON
    let mut head = vec![0xC0u8, 0x0A, 0x00, 0x00, 0x00, 0x01];
    head.extend_from_slice(&[0, 0, 0, 1, 0, 0, 0, 2]);
    head.extend_from_slice(b"no");
    let ck = Checksum::from_bytes(&head).as_bytes();
    head.extend_from_slice(&ck);
    assert_eq!(Frame::parse(&head), Err(FrameError::InvalidJson));

    // a valid picture payload decodes
    let mut head = vec![0xC0u8, 0x0A, 0x00, 0x00, 0x00, 0x01];
    head.extend_from_slice(&[0, 0, 0, 1, 0, 0, 0, 2]);
    head.extend_from_slice(b"{}");
    let ck = Checksum::from_bytes(&head).as_bytes();
    head.extend_from_slice(&ck);
    let (frame, consumed) = Frame::parse(&head).unwrap();
    assert_eq!(consumed, 18);
    assert_eq!(
        frame.cmd,
        Cmd::TransmitPicture { position: Position::from_int(1, 2), body: String::from("{}") }
    );
}

#[test]
fn decode_rejects_reserved_opcode() {
    // opcode 0xE is reserved: never produced, rejected on receipt
    let bytes: [u8; 8] = [0xE0, 0x00, 0x00, 0x00, 0x00, 0x01, 0x00, 0x00];
    assert_eq!(Frame::parse(&bytes), Err(FrameError::InvalidCommandCode));
}

#[test]
fn decode_rejects_empty_buffer() {
    let bytes: [u8; 0] = [];
    assert_eq!(Frame::parse_header(&bytes), Err(FrameError::EmptyFrameError));
    assert_eq!(Frame::parse(&bytes), Err(FrameError::EmptyFrameError));
}

#[test]
fn checksum_known_answer() {
    // the CRC-16/MODBUS digest of the standard nine-byte check input
    let digest = Checksum::from_bytes(b"123456789");
    assert_eq!(digest.as_bytes(), [0x4B, 0x37]);
    assert!(digest.check(b"123456789"));
    assert!(!digest.check(b"123456780"));
    assert_eq!(Checksum::from_int(0x4B37), digest);
}

#[test]
fn ssid_decoding_is_permissive() {
    let ssid = SSID::parse(b"backbone").unwrap();
    assert_eq!(ssid.name(), "backbone");
    let ssid = SSID::parse(&[0xFF, 0xFE]).unwrap();
    assert_eq!(ssid.name(), "INVALID_UTF-8");
    assert_eq!(SSID::new(String::from("x")).name(), "x");
}

#[test]
fn byte_extraction_checks_length() {
    assert_eq!(byte_slice_to_u32(&[1, 2, 3, 4]), Ok(0x01020304));
    assert_eq!(byte_slice_to_u32(&[1, 2, 3, 4, 5]), Ok(0x01020304));
    assert_eq!(byte_slice_to_u32(&[1, 2, 3]), Err(FrameError::NotEnoughBytes));
    assert_eq!(byte_slice_to_u16(&[0xAB, 0xCD]), Ok(0xABCD));
    assert_eq!(byte_slice_to_u16(&[0xAB]), Err(FrameError::NotEnoughBytes));
}

#[test]
fn log_entries_accumulate() {
    let mut logger = Logger::new();
    logger.log(Severity::INFO, "first");
    logger.log(Severity::ERROR, "second");
    let logs = logger.get_logs();
    assert_eq!(logs.len(), 2);
    assert_eq!(logs[0].severity, Severity::INFO);
    assert_eq!(logs[0].msg, "first");
    assert_eq!(logs[1].severity, Severity::ERROR);
    assert_eq!(Severity::ERROR.value(), 5);
    assert_eq!(Severity::ALL.value(), 0);
}

#[test]
fn received_log_payloads_are_filtered() {
    let mut logger = Logger::new();
    // not an object with a logs array: nothing is appended
    assert_eq!(proc_rx_logs(&mut logger, "[1,2,3]"), None);
    assert_eq!(proc_rx_logs(&mut logger, "not json"), None);
    assert_eq!(logger.get_logs().len(), 0);

    // well-formed entries are appended, malformed ones skipped
    let text = "{\"logs\":[{\"severity\":2,\"msg\":\"a\"},{\"severity\":0,\"msg\":\"b\"},{\"msg\":\"c\"},{\"severity\":5,\"msg\":\"d\"}]}";
    assert_eq!(proc_rx_logs(&mut logger, text), Some(()));
    let logs = logger.get_logs();
    assert_eq!(logs.len(), 2);
    assert_eq!(logs[0].severity, Severity::DEBUG);
    assert_eq!(logs[0].msg, "a");
    assert_eq!(logs[1].severity, Severity::ERROR);
    assert_eq!(logs[1].msg, "d");
}

#[test]
fn single_log_entries_are_screened() {
    let mut logger = Logger::new();
    assert_eq!(proc_rx_logs_process_log(&mut logger, 4, "warned"), Some(()));
    assert_eq!(proc_rx_logs_process_log(&mut logger, 0, "catch-all"), None);
    assert_eq!(proc_rx_logs_process_log(&mut logger, 6, "unknown"), None);
    let logs = logger.get_logs();
    assert_eq!(logs.len(), 1);
    assert_eq!(logs[0].severity, Severity::WARNING);
    assert_eq!(logs[0].msg, "warned");
}

#[test]
fn model_accessors() {
    let user = User {
        user_id: 42,
        oauth_user_id: String::from("user-123"),
        oauth_provider_id: 1,
    };
    assert_eq!(user.get_internal_id(), 42);
    let provider = AuthProvider { provider_id: 1, provider_name: String::from("google") };
    assert_eq!(provider.get_provider_id(), 1);
    let project = sample_project();
    assert_eq!(project.project_id(), 7);
    assert_eq!(project.creator_user_id(), 3);
    assert_eq!(project.image_id(), 1);
    assert_eq!(invalid_msg("boom"), "Unexpected error ocurred: boom");
}

#[test]
fn frame_stack_histories() {
    let mut stack = FrameStack::new();
    assert_eq!(stack.curr_id(), 0);
    assert_eq!(stack.get_remote_ackd_frame_id(), 0);
    stack.append_tx_frame(ready_frame(3));
    stack.append_rx_frame(ack_frame(0, 4));
    let rx = stack.get_rx_frame_queue();
    assert_eq!(rx.len(), 1);
    assert_eq!(rx[0].0, 4);
    let stack = FrameStack::default();
    assert_eq!(stack.get_rx_frame_queue().len(), 0);
}
