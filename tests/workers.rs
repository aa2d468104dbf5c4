use serial_multiplexer::data_block::{DataBlock, SerialConnectionSettings};
use serial_multiplexer::port_manager::{
    PortRequest, ReopenStep, RetryPolicy, SerialPortManager, HANDLE_THRESHOLD,
};
use serial_multiplexer::workers::{ReceiverAction, ReceiverWorker, SenderAction, SenderWorker};

fn settings() -> SerialConnectionSettings {
    SerialConnectionSettings { baud_rate: 115200, device_path: "/dev/ttyUSB0".to_string() }
}

#[test]
fn third_request_reopens() {
    let mut m = SerialPortManager::with_settings(settings(), 10u32);
    assert_eq!(HANDLE_THRESHOLD, 2);
    assert_eq!(m.give_port(), PortRequest::Issue);
    assert_eq!(m.issued(), 1);
    assert_eq!(m.give_port(), PortRequest::Issue);
    assert_eq!(m.issued(), 2);
    assert_eq!(m.give_port(), PortRequest::Reopen);
    assert_eq!(m.issued(), 2);
    assert_eq!(*m.port(), 10);
    m.replace_port(11);
    assert_eq!(m.issued(), 0);
    assert_eq!(*m.port(), 11);
    assert_eq!(m.settings().as_ref().unwrap().device_path, "/dev/ttyUSB0");
    assert_eq!(m.give_port(), PortRequest::Issue);
    assert_eq!(m.issued(), 1);
}

#[test]
fn preopened_handle_cannot_reopen() {
    let mut m = SerialPortManager::with_port("pty");
    assert!(m.settings().is_none());
    assert_eq!(m.give_port(), PortRequest::Issue);
    assert_eq!(m.give_port(), PortRequest::Issue);
    assert_eq!(m.give_port(), PortRequest::Unreconnectable);
    assert_eq!(m.give_port(), PortRequest::Unreconnectable);
}

#[test]
fn receiver_makes_one_block_per_read() {
    let w = ReceiverWorker::new(5);
    let mut buffer = vec![0u8; 255];
    buffer[0] = b'o';
    buffer[1] = b'k';
    match w.on_read(&buffer, Some(2)) {
        ReceiverAction::Publish(b) => {
            assert_eq!(b.id(), 5);
            assert_eq!(b.payload(), &b"ok".to_vec());
        }
        _ => panic!("a read of two bytes published nothing"),
    }
    match w.on_read(&buffer, Some(255)) {
        ReceiverAction::Publish(b) => assert_eq!(b.payload().len(), 255),
        _ => panic!("a full read published nothing"),
    }
    assert!(matches!(w.on_read(&buffer, Some(0)), ReceiverAction::ReadAgain));
    assert!(matches!(w.on_read(&buffer, None), ReceiverAction::Reacquire));
}

#[test]
fn sender_retries_same_block_until_written() {
    let mut w = SenderWorker::new(4);
    assert_eq!(w.id(), 4);
    assert!(w.is_idle());
    assert!(w.pending_payload().is_none());
    w.accept(DataBlock::new(4, b"payload".to_vec()).unwrap()).unwrap();
    for _ in 0..3 {
        assert_eq!(w.pending_payload().unwrap(), &b"payload".to_vec());
        assert_eq!(w.write_result(false), SenderAction::ReacquireAndRetry);
    }
    assert_eq!(w.pending_payload().unwrap(), &b"payload".to_vec());
    assert_eq!(w.write_result(true), SenderAction::Receive);
    assert!(w.is_idle());
    assert!(w.pending_payload().is_none());
    assert_eq!(w.write_result(true), SenderAction::Receive);
}

#[test]
fn busy_sender_hands_block_back() {
    let mut w = SenderWorker::new(1);
    assert!(w.accept(DataBlock::new(1, b"a".to_vec()).unwrap()).is_ok());
    let back = w.accept(DataBlock::new(1, b"b".to_vec()).unwrap()).unwrap_err();
    assert_eq!(back.payload(), &b"b".to_vec());
    assert_eq!(w.pending_payload().unwrap(), &b"a".to_vec());
}

#[test]
fn reopen_retries_every_hundred_ms() {
    let p = RetryPolicy::reopen_default();
    assert_eq!(p.interval_ms, 100);
    assert_eq!(p.after_attempt(false), ReopenStep::WaitAndRetry(100));
    assert_eq!(p.after_attempt(true), ReopenStep::Done);
    let quick = RetryPolicy { interval_ms: 0 };
    assert_eq!(quick.after_attempt(false), ReopenStep::WaitAndRetry(0));
}
