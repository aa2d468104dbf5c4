use serial_multiplexer::data_block::DataBlock;
use serial_multiplexer::demux::{
    DemuxAction, DemuxError, DemuxEvent, Demultiplexer, SerialConnectionSender, RESYNC_WAIT_MS,
};
use std::sync::mpsc::{channel, Receiver};

fn channels(ids: &[u8]) -> (Vec<SerialConnectionSender>, Vec<Receiver<DataBlock>>) {
    let mut senders = vec![];
    let mut receivers = vec![];
    for id in ids {
        let (tx, rx) = channel();
        senders.push(SerialConnectionSender { id: *id, port_sender: tx });
        receivers.push(rx);
    }
    (senders, receivers)
}

/// Drives the demultiplexer over `bytes` as a link would deliver them, and
/// records the actions it asks for.
fn feed(d: &mut Demultiplexer, bytes: &[u8]) -> Vec<String> {
    let mut log = vec![];
    let mut pos = 0usize;
    let mut action = d.start();
    loop {
        let event = match action {
            DemuxAction::ReadHeader => {
                if pos + 2 > bytes.len() {
                    return log;
                }
                pos += 2;
                DemuxEvent::HeaderRead(Some((bytes[pos - 2], bytes[pos - 1])))
            }
            DemuxAction::ReadPayload(n) => {
                if pos + n > bytes.len() {
                    return log;
                }
                pos += n;
                DemuxEvent::PayloadRead(Some(bytes[pos - n..pos].to_vec()))
            }
            DemuxAction::Deliver(i, block) => {
                log.push(format!("deliver {} to {}", block.id(), i));
                d.sender(i).port_sender.send(block).unwrap();
                DemuxEvent::Delivered
            }
            DemuxAction::ClearInput => {
                log.push("clear".to_string());
                DemuxEvent::Cleared
            }
            DemuxAction::Sleep(ms) => {
                log.push(format!("sleep {}", ms));
                DemuxEvent::Slept
            }
        };
        action = d.step(event);
    }
}

#[test]
fn new_refuses_shared_ids() {
    let (senders, _rx) = channels(&[1, 3, 1]);
    match Demultiplexer::new(senders) {
        Err(e) => assert_eq!(e, DemuxError::DuplicateId(1)),
        Ok(_) => panic!("duplicate ids were accepted"),
    }
}

#[test]
fn routes_known_ids() {
    let (senders, _rx) = channels(&[1, 3]);
    let d = Demultiplexer::new(senders).unwrap();
    assert_eq!(d.route(1), Some(0));
    assert_eq!(d.route(3), Some(1));
    assert_eq!(d.route(2), None);
}

#[test]
fn delivers_frames_to_their_channels() {
    let (senders, rx) = channels(&[1, 3]);
    let mut d = Demultiplexer::new(senders).unwrap();
    let log = feed(&mut d, &[0x01, 0x02, 0x68, 0x69, 0x03, 0x05, 0x77, 0x6F, 0x72, 0x6C, 0x64]);
    assert_eq!(log, vec!["deliver 1 to 0", "deliver 3 to 1"]);
    assert_eq!(rx[0].try_recv().unwrap().payload(), &b"hi".to_vec());
    assert_eq!(rx[1].try_recv().unwrap().payload(), &b"world".to_vec());
    assert!(rx[0].try_recv().is_err());
}

#[test]
fn unknown_id_resynchronises() {
    let (senders, rx) = channels(&[1, 3]);
    let mut d = Demultiplexer::new(senders).unwrap();
    let log = feed(&mut d, &[0x02, 0x03, 0x61, 0x62, 0x63, 0x01, 0x02, 0x68, 0x69]);
    assert_eq!(log, vec!["clear", "sleep 1000", "clear", "deliver 1 to 0"]);
    assert_eq!(RESYNC_WAIT_MS, 1000);
    let got = rx[0].try_recv().unwrap();
    assert_eq!(got.id(), 1);
    assert_eq!(got.payload(), &b"hi".to_vec());
    assert!(rx[0].try_recv().is_err());
    assert!(rx[1].try_recv().is_err());
}

#[test]
fn failed_reads_go_back_to_the_header() {
    let (senders, _rx) = channels(&[1]);
    let mut d = Demultiplexer::new(senders).unwrap();
    assert!(matches!(d.step(DemuxEvent::HeaderRead(None)), DemuxAction::ReadHeader));
    assert!(matches!(d.step(DemuxEvent::HeaderRead(Some((1, 4)))), DemuxAction::ReadPayload(4)));
    assert!(matches!(d.step(DemuxEvent::PayloadRead(None)), DemuxAction::ReadHeader));
    assert!(matches!(d.step(DemuxEvent::HeaderRead(Some((1, 4)))), DemuxAction::ReadPayload(4)));
    assert!(matches!(d.step(DemuxEvent::PayloadRead(Some(vec![1, 2]))), DemuxAction::ReadHeader));
}
