use devserial::modem::{
    checksum8, crc16_ccitt, crc32, receive, send, Action, Event, FileTransferProtocol, Next,
    ReceiveMachine, SendMachine,
};
use std::collections::VecDeque;

#[test]
fn data_with_its_crc_has_crc_zero() {
    assert_eq!(crc16_ccitt(b"123456789\x31\xC3"), 0);
    for data in [&b""[..], b"x", b"\xff\x00\x80", b"the quick brown fox"] {
        let crc = crc16_ccitt(data);
        let mut whole = data.to_vec();
        whole.push((crc >> 8) as u8);
        whole.push((crc & 0xff) as u8);
        assert_eq!(crc16_ccitt(&whole), 0);
    }
}

#[test]
fn test_crc16_ccitt() {
    assert_eq!(crc16_ccitt(b"123456789"), 0x31C3);
    assert_eq!(crc16_ccitt(b""), 0x0000);
}

#[test]
fn test_checksum8() {
    assert_eq!(checksum8(&[1, 2, 3, 4]), 10);
    assert_eq!(checksum8(&[255, 1]), 0);
}

#[test]
fn test_crc32() {
    assert_eq!(crc32(b"123456789"), 0xCBF4_3926);
}

enum Side {
    Sender(SendMachine),
    Receiver(ReceiveMachine),
}

/// One end of a line: its machine, what it waits for, and what has arrived.
struct End {
    side: Option<Side>,
    next: Next,
    inbox: VecDeque<u8>,
}

impl End {
    fn finished(&self) -> bool {
        matches!(self.next, Next::Done | Next::Failed(_))
    }

    /// What the machine is told next, where it can be told something.
    fn event(&mut self) -> Option<Event> {
        match self.next {
            Next::ReadByte { .. } | Next::Poll { .. } => self.inbox.pop_front().map(Event::Byte),
            Next::ReadExact(n) => {
                if self.inbox.len() < n {
                    None
                } else {
                    Some(Event::Bytes(self.inbox.drain(..n).collect()))
                }
            }
            Next::Proceed => Some(Event::Proceed),
            Next::Done | Next::Failed(_) => None,
        }
    }

    /// Take a step; what comes back is what went out on the line.
    fn step(&mut self, event: Event) -> Vec<u8> {
        let (side, action) = match self.side.take().unwrap() {
            Side::Sender(m) => {
                let (m, a) = m.step(event);
                (Side::Sender(m), a)
            }
            Side::Receiver(m) => {
                let (m, a) = m.step(event);
                (Side::Receiver(m), a)
            }
        };
        self.side = Some(side);
        self.next = action.next;
        action.send
    }
}

/// Connect a sender and a receiver and let them talk; `damage` may change what
/// goes out on the line.
fn transfer(
    protocol: FileTransferProtocol,
    name: &str,
    data: &[u8],
    mut damage: impl FnMut(usize, Vec<u8>) -> Vec<u8>,
) -> Result<(usize, String, Vec<u8>), String> {
    let (s, first): (SendMachine, Action) = send(protocol, name, data.to_vec());
    let (r, invite): (ReceiveMachine, Action) = receive(protocol);
    let mut sender = End {
        side: Some(Side::Sender(s)),
        next: first.next,
        inbox: invite.send.into_iter().collect(),
    };
    let mut receiver = End {
        side: Some(Side::Receiver(r)),
        next: invite.next,
        inbox: first.send.into_iter().collect(),
    };
    let mut written: usize = 0;
    for _ in 0..2_000_000 {
        if sender.finished() && receiver.finished() {
            break;
        }
        if let Some(event) = sender.event() {
            let out = sender.step(event);
            if !out.is_empty() {
                receiver.inbox.extend(damage(written, out));
                written += 1;
            }
        } else if let Some(event) = receiver.event() {
            let out = receiver.step(event);
            sender.inbox.extend(out);
        } else if !receiver.finished() {
            let out = receiver.step(match receiver.next {
                Next::ReadExact(_) => Event::ReadFailed("early eof".to_string()),
                _ => Event::Timeout,
            });
            sender.inbox.extend(out);
        } else {
            let out = sender.step(Event::Timeout);
            receiver.inbox.extend(out);
        }
    }
    if let Next::Failed(e) = sender.next {
        return Err(e);
    }
    if let Next::Failed(e) = receiver.next {
        return Err(e);
    }
    let total = match sender.side.take().unwrap() {
        Side::Sender(m) => m.total(),
        Side::Receiver(_) => 0,
    };
    match receiver.side.take().unwrap() {
        Side::Receiver(m) => {
            let (name, data) = m.into_file(protocol);
            Ok((total, name, data))
        }
        Side::Sender(_) => panic!("the receiver receives"),
    }
}

fn clean(_: usize, out: Vec<u8>) -> Vec<u8> {
    out
}

#[test]
fn test_xmodem_crc_transfer_roundtrip() {
    let test_data = b"Hello from devserial pure Rust XMODEM CRC file transfer engine!";
    let (sent, _, received) =
        transfer(FileTransferProtocol::XmodemCrc, "", test_data, clean).unwrap();
    assert_eq!(sent, test_data.len());
    assert_eq!(received, test_data);
}

#[test]
fn test_xmodem_1k_transfer_roundtrip() {
    // 2500 bytes of data (multiple 1K blocks)
    let test_data: Vec<u8> = (0..2500u16).map(|i| u8::try_from(i % 256).unwrap()).collect();
    let (sent, _, received) =
        transfer(FileTransferProtocol::Xmodem1k, "", &test_data, clean).unwrap();
    assert_eq!(sent, test_data.len());
    assert_eq!(received, test_data);
}

#[test]
fn test_ymodem_batch_roundtrip() {
    let filename = "firmware_v1.0.bin";
    let test_data = b"DevSerial embedded YMODEM-Batch payload testing 1234567890!";
    let (sent_bytes, recv_name, recv_data) =
        transfer(FileTransferProtocol::Ymodem, filename, test_data, clean).unwrap();
    assert_eq!(sent_bytes, test_data.len());
    assert_eq!(recv_name, filename);
    assert_eq!(recv_data, test_data);
}

#[test]
fn test_zmodem_streaming_roundtrip() {
    let filename = "zmodem_test.bin";
    let test_data = b"DevSerial High Performance ZMODEM Streaming Protocol Testing 1234567890!";
    let (sent_bytes, recv_name, recv_data) =
        transfer(FileTransferProtocol::Zmodem, filename, test_data, clean).unwrap();
    assert_eq!(sent_bytes, test_data.len());
    assert_eq!(recv_name, filename);
    assert_eq!(recv_data, test_data);
}

#[test]
fn a_plain_checksum_carries_a_file_too() {
    let data: Vec<u8> = (1..=200).collect();
    let (_, name, received) = transfer(FileTransferProtocol::Xmodem, "", &data, clean).unwrap();
    assert_eq!(received, data);
    assert_eq!(name, "xmodem_recv.bin");
}

#[test]
fn every_byte_value_survives_each_protocol() {
    let mut data: Vec<u8> = (0..=255).collect();
    data.extend((0..=255).rev());
    data.extend([0x18, 0x2a, 0x11, 0x13, 0x7f, 0xff, 1]);
    for protocol in [
        FileTransferProtocol::Xmodem,
        FileTransferProtocol::XmodemCrc,
        FileTransferProtocol::Xmodem1k,
        FileTransferProtocol::Ymodem,
        FileTransferProtocol::Zmodem,
    ] {
        let (_, _, received) = transfer(protocol, "all.bin", &data, clean).unwrap();
        assert_eq!(received, data, "{protocol:?}");
    }
}

#[test]
fn a_damaged_block_is_sent_again() {
    let data: Vec<u8> = (0..300).map(|i| (i % 251) as u8 + 1).collect();
    let (_, _, received) = transfer(FileTransferProtocol::XmodemCrc, "", &data, |n, mut out| {
        if n == 1 {
            out[10] ^= 0xff;
        }
        out
    })
    .unwrap();
    assert_eq!(received, data);
}

#[test]
fn padding_at_the_end_is_not_told_from_data() {
    // The block size hides where a file ends, so trailing padding bytes go.
    let (_, _, received) =
        transfer(FileTransferProtocol::XmodemCrc, "", &[1, 2, 0x1a, 0x1a], clean).unwrap();
    assert_eq!(received, vec![1, 2]);
}

#[test]
fn a_receiver_that_hears_nothing_gives_up() {
    let (mut m, mut a) = receive(FileTransferProtocol::XmodemCrc);
    for _ in 0..1000 {
        if let Next::Failed(_) = a.next {
            return;
        }
        let (n, b) = m.step(Event::Timeout);
        m = n;
        a = b;
    }
    panic!("the receiver waited forever");
}

#[test]
fn a_protocol_says_how_it_frames() {
    assert!(FileTransferProtocol::Ymodem.uses_1k_blocks());
    assert!(FileTransferProtocol::Xmodem1k.uses_1k_blocks());
    assert!(!FileTransferProtocol::XmodemCrc.uses_1k_blocks());
    assert!(!FileTransferProtocol::Xmodem.uses_crc());
    assert!(FileTransferProtocol::Zmodem.uses_crc());
    assert_eq!(FileTransferProtocol::Zmodem.fallback_filename(), "zmodem_recv.bin");
}
