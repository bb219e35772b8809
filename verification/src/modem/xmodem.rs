//! XMODEM protocol (standard, CRC, 1K).
use vstd::prelude::*;
use vstd::string::*;

use crate::modem;
use crate::modem::{
    checksum8, crc16_ccitt, failing, failing_with, one_byte, sending, trim_padding, waiting,
    Action, ActionView, Event, EventView, Next, NextView, Progress, ACK, CAN, CRC_C, EOT, MAX_RETRIES, NAK, PAD, SOH, STX,
    TIMEOUT_MS,
};
use crate::text;
use crate::text::{concat3, decimal};

verus! {

/// Time between two looks for the receiver's start signal, in milliseconds.
pub const START_POLL_MS: u64 = 500;
/// Time within which the receiver's start signal must come, in milliseconds.
pub const START_DEADLINE_MS: u64 = 30_000;
/// Time a receiver waits for a sender after each start signal, in milliseconds.
pub const START_REPLY_MS: u64 = 1000;

// ---------------------------------------------------------------------------
// Blocks
// ---------------------------------------------------------------------------

/// Bytes of payload in a block.
pub open spec fn block_size(use_1k: bool) -> int {
    if use_1k {
        1024
    } else {
        128
    }
}

/// The byte that opens a block.
pub open spec fn block_header(use_1k: bool) -> u8 {
    if use_1k {
        STX
    } else {
        SOH
    }
}

/// The end of the block that starts at `offset`.
pub open spec fn chunk_end(len: int, offset: int, size: int) -> int {
    if offset + size < len {
        offset + size
    } else {
        len
    }
}

/// The payload of the block that starts at `offset`, padded to `size` bytes.
pub open spec fn block_at(data: Seq<u8>, offset: int, size: int) -> Seq<u8> {
    let end = chunk_end(data.len() as int, offset, size);
    data.subrange(offset, end) + modem::padding((size - (end - offset)) as nat)
}

/// The two bytes of a CRC, high byte first.
pub open spec fn crc_bytes(crc: u16) -> Seq<u8> {
    seq![(crc >> 8) as u8, (crc & 0xFF) as u8]
}

/// The check bytes behind a block.
pub open spec fn check_bytes(block: Seq<u8>, use_crc: bool) -> Seq<u8> {
    if use_crc {
        crc_bytes(modem::crc16(block))
    } else {
        seq![modem::sum8(block)]
    }
}

/// A block on the line: header, number, complement, payload, check.
pub open spec fn packet(header: u8, number: u8, block: Seq<u8>, use_crc: bool) -> Seq<u8> {
    seq![header, number, !number] + block + check_bytes(block, use_crc)
}

/// The packet with the block of `data` that starts at `offset`.
pub open spec fn packet_at(
    data: Seq<u8>,
    use_1k: bool,
    use_crc: bool,
    offset: int,
    number: u8,
) -> Seq<u8> {
    packet(block_header(use_1k), number, block_at(data, offset, block_size(use_1k)), use_crc)
}

/// Build one packet.
pub fn build_packet(header: u8, number: u8, block: &Vec<u8>, use_crc: bool) -> (r: Vec<u8>)
    ensures
        r@ == packet(header, number, block@, use_crc),
{
    let mut out: Vec<u8> = Vec::new();
    out.push(header);
    out.push(number);
    out.push(!number);
    out.extend_from_slice(block.as_slice());
    if use_crc {
        let crc = crc16_ccitt(block.as_slice());
        out.push((crc >> 8) as u8);
        out.push((crc & 0xFF) as u8);
    } else {
        out.push(checksum8(block.as_slice()));
    }
    assert(out@ =~= packet(header, number, block@, use_crc));
    out
}

/// Cut the block that starts at `offset` out of the data and pad it.
pub fn cut_block(data: &[u8], offset: usize, size: usize) -> (r: Vec<u8>)
    requires
        offset <= data.len(),
        0 < size <= 1024,
    ensures
        r@ == block_at(data@, offset as int, size as int),
{
    let end: usize = if size < data.len() - offset {
        offset + size
    } else {
        data.len()
    };
    let mut block: Vec<u8> = Vec::new();
    let mut i: usize = offset;
    while i < end
        invariant
            offset <= i <= end <= data.len(),
            block@ == data@.subrange(offset as int, i as int),
        decreases end - i,
    {
        block.push(data[i]);
        i = i + 1;
    }
    let ghost filled = data@.subrange(offset as int, end as int);
    assert(modem::padding(0) =~= Seq::<u8>::empty());
    assert(filled + modem::padding(0) =~= filled);
    while block.len() < size
        invariant
            filled.len() <= block.len() <= size,
            block@ == filled + modem::padding((block.len() - filled.len()) as nat),
        decreases size - block.len(),
    {
        let ghost n = (block.len() - filled.len()) as nat;
        block.push(PAD);
        assert(block@ =~= filled + modem::padding(n + 1));
    }
    block
}

// ---------------------------------------------------------------------------
// Receiving one block
// ---------------------------------------------------------------------------

/// Bytes behind the header byte of a block.
pub open spec fn body_len(header: u8, use_crc: bool) -> int {
    2 + block_size(header == STX) + (if use_crc {
        2int
    } else {
        1int
    })
}

/// The payload of a block body.
pub open spec fn body_block(header: u8, body: Seq<u8>) -> Seq<u8> {
    body.subrange(2, 2 + block_size(header == STX))
}

/// What a receiver makes of the body of a block.
pub enum Verdict {
    /// The expected block, to be appended.
    Accept,
    /// The block before the expected one, seen again.
    Duplicate,
    /// The number and its complement do not match.
    BadComplement,
    /// The payload does not match its check bytes.
    BadCheck,
    /// Neither the expected block nor the one before it.
    OutOfSync,
}

/// What a receiver makes of the body of a block.
pub open spec fn verdict(header: u8, body: Seq<u8>, expected: u8, use_crc: bool) -> Verdict {
    let block = body_block(header, body);
    if body[1] != !body[0] {
        Verdict::BadComplement
    } else if body.skip(2 + block_size(header == STX)) != check_bytes(block, use_crc) {
        Verdict::BadCheck
    } else if body[0] == expected {
        Verdict::Accept
    } else if body[0] == expected.wrapping_sub(1) {
        Verdict::Duplicate
    } else {
        Verdict::OutOfSync
    }
}

/// The byte a receiver answers a block with.
pub open spec fn verdict_reply(v: Verdict) -> u8 {
    match v {
        Verdict::Accept | Verdict::Duplicate => ACK,
        Verdict::BadComplement | Verdict::BadCheck => NAK,
        Verdict::OutOfSync => CAN,
    }
}

/// The reason for which a block was refused.
pub open spec fn verdict_error(v: Verdict, expected: u8, got: u8) -> Seq<char> {
    match v {
        Verdict::BadComplement => "XMODEM block number complement mismatch"@,
        Verdict::BadCheck => "XMODEM checksum/CRC validation failed"@,
        Verdict::OutOfSync => "XMODEM block synchronization lost (expected "@ + text::dec_nat(
            expected as nat,
        ) + ", got "@ + text::dec_nat(got as nat) + ")"@,
        _ => Seq::empty(),
    }
}

/// Two bytes make up a CRC exactly when they are its high and its low byte.
pub proof fn lemma_crc_bytes(crc: u16, hi: u8, lo: u8)
    ensures
        (((hi as u16) << 8) | (lo as u16) == crc) <==> (hi == (crc >> 8) as u8 && lo == (crc
            & 0xFF) as u8),
{
    assert((((hi as u16) << 8) | (lo as u16) == crc) <==> (hi == (crc >> 8) as u8 && lo == (crc
        & 0xFF) as u8)) by (bit_vector);
}

/// Take in the body of one block.
///
/// The result is the byte to answer with, and either whether the block was
/// appended to the output or the reason for which it was refused.
pub fn handle_incoming_block(
    header: u8,
    body: &Vec<u8>,
    expected_block: u8,
    use_crc: bool,
    output: &mut Vec<u8>,
) -> (r: (u8, Result<bool, String>))
    requires
        body@.len() == body_len(header, use_crc),
    ensures
        ({
            let v = verdict(header, body@, expected_block, use_crc);
            &&& r.0 == verdict_reply(v)
            &&& final(output)@ == (if v is Accept {
                old(output)@ + body_block(header, body@)
            } else {
                old(output)@
            })
            &&& match r.1 {
                Ok(appended) => v is Accept && appended || v is Duplicate && !appended,
                Err(e) => (v is BadComplement || v is BadCheck || v is OutOfSync) && e@
                    == verdict_error(v, expected_block, body@[0]),
            }
        }),
{
    let size: usize = if header == STX {
        1024
    } else {
        128
    };
    let blk = body[0];
    let inv_blk = body[1];
    if inv_blk != !blk {
        return (NAK, Err("XMODEM block number complement mismatch".to_owned()));
    }
    let block = vstd::slice::slice_subrange(body.as_slice(), 2, 2 + size);
    assert(block@ == body_block(header, body@));
    let ghost tail = body@.skip(2 + block_size(header == STX));
    let valid = if use_crc {
        let hi = body[2 + size];
        let lo = body[3 + size];
        let received: u16 = ((hi as u16) << 8) | (lo as u16);
        let crc = crc16_ccitt(block);
        proof {
            lemma_crc_bytes(crc, hi, lo);
            assert(tail =~= seq![hi, lo]);
            if tail == crc_bytes(crc) {
                assert(tail[0] == hi && tail[1] == lo);
            }
        }
        crc == received
    } else {
        let received = body[2 + size];
        assert(tail =~= seq![received]);
        proof {
            if tail == seq![modem::sum8(block@)] {
                assert(tail[0] == received);
            }
        }
        checksum8(block) == received
    };
    if !valid {
        return (NAK, Err("XMODEM checksum/CRC validation failed".to_owned()));
    }
    if blk == expected_block {
        output.extend_from_slice(block);
        assert(output@ =~= old(output)@ + block@);
        (ACK, Ok(true))
    } else if blk == expected_block.wrapping_sub(1) {
        (ACK, Ok(false))
    } else {
        let mut e = "XMODEM block synchronization lost (expected ".to_owned();
        e.append(decimal(expected_block as u64).as_str());
        e.append(", got ");
        e.append(decimal(blk as u64).as_str());
        e.append(")");
        (CAN, Err(e))
    }
}

// ---------------------------------------------------------------------------
// Sender
// ---------------------------------------------------------------------------

/// Where a sender stands.
#[derive(Debug, Clone, Copy, PartialEq, Eq, Structural)]
pub enum SendPhase {
    /// Waiting for the receiver's start signal.
    Start,
    /// The block at `offset` is on the line, after `retries` refusals.
    Block { use_crc: bool, offset: usize, number: u8, retries: u32 },
    /// The end of the transmission was announced, after `retries` refusals.
    Eot { retries: u32 },
    /// All of the data was acknowledged.
    Done,
    /// The transfer was given up.
    Failed,
}

/// An XMODEM sender.
pub struct Sender {
    data: Vec<u8>,
    use_1k: bool,
    phase: SendPhase,
}

/// An XMODEM sender, as a value of the model.
#[verifier::ext_equal]
pub struct SenderView {
    pub data: Seq<u8>,
    pub use_1k: bool,
    pub phase: SendPhase,
}

impl View for Sender {
    type V = SenderView;

    closed spec fn view(&self) -> SenderView {
        SenderView { data: self.data@, use_1k: self.use_1k, phase: self.phase }
    }
}

impl SenderView {
    /// The block on the line starts inside the data, and retries are bounded.
    pub open spec fn wf(self) -> bool {
        match self.phase {
            SendPhase::Block { offset, retries, .. } => offset <= self.data.len() && retries
                < MAX_RETRIES,
            SendPhase::Eot { retries } => retries < MAX_RETRIES,
            _ => true,
        }
    }

    /// The wait that belongs to the phase.
    pub open spec fn pending(self) -> NextView {
        match self.phase {
            SendPhase::Start => NextView::Poll {
                timeout_ms: START_POLL_MS,
                deadline_ms: START_DEADLINE_MS,
                restart: false,
            },
            SendPhase::Done => NextView::Done,
            SendPhase::Failed => NextView::Failed("XMODEM transfer has ended"@),
            _ => NextView::ReadByte { timeout_ms: TIMEOUT_MS },
        }
    }

    /// The same sender in another phase.
    pub open spec fn to(self, phase: SendPhase) -> SenderView {
        SenderView { phase, ..self }
    }

    /// The packet of the block at `offset`.
    pub open spec fn packet(self, use_crc: bool, offset: int, number: u8) -> Seq<u8> {
        packet_at(self.data, self.use_1k, use_crc, offset, number)
    }

    /// Give up with the given reason.
    pub open spec fn give_up(self, reason: Seq<char>) -> (SenderView, ActionView) {
        (self.to(SendPhase::Failed), modem::fail(reason))
    }

    /// Put the block at `offset` on the line.
    pub open spec fn offer(self, use_crc: bool, offset: int, number: u8, retries: u32) -> (
        SenderView,
        ActionView,
    ) {
        (
            self.to(SendPhase::Block { use_crc, offset: offset as usize, number, retries }),
            modem::send_then(
                self.packet(use_crc, offset, number),
                NextView::ReadByte { timeout_ms: TIMEOUT_MS },
            ),
        )
    }

    /// What the sender does on an event.
    pub open spec fn step(self, event: EventView) -> (SenderView, ActionView) {
        match self.phase {
            SendPhase::Start => match event {
                EventView::Byte(b) => if b == CRC_C || b == NAK {
                    self.offer(b == CRC_C, 0, 1, 0)
                } else if b == CAN {
                    self.give_up("XMODEM cancelled by receiver"@)
                } else {
                    (self, modem::wait(self.pending()))
                },
                EventView::Deadline => self.give_up(
                    "XMODEM timeout waiting for receiver start signal ('C' or NAK)"@,
                ),
                _ => (self, modem::wait(self.pending())),
            },
            SendPhase::Block { use_crc, offset, number, retries } => match event {
                EventView::Byte(b) => if b == ACK {
                    let len = self.data.len() as int;
                    let end = chunk_end(len, offset as int, block_size(self.use_1k));
                    let next = if end >= len {
                        (
                            self.to(SendPhase::Eot { retries: 0 }),
                            modem::send_then(seq![EOT], NextView::ReadByte { timeout_ms: TIMEOUT_MS }),
                        )
                    } else {
                        self.offer(use_crc, end, number.wrapping_add(1), 0)
                    };
                    (
                        next.0,
                        ActionView {
                            progress: Some(
                                Progress { done: end as usize, total: Some(len as usize) },
                            ),
                            ..next.1
                        },
                    )
                } else if b == CAN {
                    self.give_up("XMODEM transfer cancelled by receiver"@)
                } else if retries + 1 >= MAX_RETRIES {
                    self.give_up(
                        "XMODEM block "@ + text::dec_nat(number as nat) + " failed after 10 retries"@,
                    )
                } else {
                    self.offer(use_crc, offset as int, number, (retries + 1) as u32)
                },
                EventView::Timeout => self.give_up("Timeout reading byte"@),
                EventView::ReadFailed(e) => self.give_up("I/O error reading byte: "@ + e),
                EventView::WriteFailed(e) => self.give_up("XMODEM write error: "@ + e),
                EventView::FlushFailed(e) => self.give_up("XMODEM flush error: "@ + e),
                _ => (self, modem::wait(self.pending())),
            },
            SendPhase::Eot { retries } => match event {
                EventView::Byte(b) => if b == ACK {
                    (self.to(SendPhase::Done), modem::wait(NextView::Done))
                } else if retries + 1 >= MAX_RETRIES {
                    self.give_up("XMODEM EOT not acknowledged"@)
                } else {
                    (
                        self.to(SendPhase::Eot { retries: (retries + 1) as u32 }),
                        modem::send_then(seq![EOT], NextView::ReadByte { timeout_ms: TIMEOUT_MS }),
                    )
                },
                EventView::Timeout => self.give_up("Timeout reading byte"@),
                EventView::ReadFailed(e) => self.give_up("I/O error reading byte: "@ + e),
                EventView::WriteFailed(e) => self.give_up("XMODEM write EOT error: "@ + e),
                EventView::FlushFailed(e) => self.give_up("XMODEM flush EOT error: "@ + e),
                _ => (self, modem::wait(self.pending())),
            },
            SendPhase::Done | SendPhase::Failed => (self, modem::wait(self.pending())),
        }
    }
}

/// The sender of some data before anything has happened.
pub open spec fn sender_start(data: Seq<u8>, use_1k: bool) -> SenderView {
    SenderView { data, use_1k, phase: SendPhase::Start }
}

impl Sender {
    /// A sender of the given data. Its first action is to wait for the
    /// receiver's start signal.
    pub fn new(data: Vec<u8>, use_1k: bool) -> (r: (Sender, Action))
        ensures
            r.0@ == sender_start(data@, use_1k),
            r.0@.wf(),
            r.1@ == modem::wait(
                NextView::Poll {
                    timeout_ms: START_POLL_MS,
                    deadline_ms: START_DEADLINE_MS,
                    restart: true,
                },
            ),
    {
        let s = Sender { data, use_1k, phase: SendPhase::Start };
        let first = Next::Poll {
            timeout_ms: START_POLL_MS,
            deadline_ms: START_DEADLINE_MS,
            restart: true,
        };
        (s, waiting(first))
    }

    /// Number of bytes in the data.
    pub fn total(&self) -> (r: usize)
        ensures
            r == self@.data.len(),
    {
        self.data.len()
    }

    fn pending(&self) -> (r: Next)
        ensures
            r@ == self@.pending(),
    {
        match self.phase {
            SendPhase::Start => Next::Poll {
                timeout_ms: START_POLL_MS,
                deadline_ms: START_DEADLINE_MS,
                restart: false,
            },
            SendPhase::Done => Next::Done,
            SendPhase::Failed => Next::Failed("XMODEM transfer has ended".to_owned()),
            _ => Next::ReadByte { timeout_ms: TIMEOUT_MS },
        }
    }

    fn give_up(&mut self, prefix: &str, detail: &str) -> (r: Action)
        ensures
            (final(self)@, r@) == old(self)@.give_up(prefix@ + detail@),
    {
        self.phase = SendPhase::Failed;
        failing(prefix, detail)
    }

    fn stop(&mut self, reason: &str) -> (r: Action)
        ensures
            (final(self)@, r@) == old(self)@.give_up(reason@),
    {
        self.phase = SendPhase::Failed;
        failing_with(reason)
    }

    fn offer(&mut self, use_crc: bool, offset: usize, number: u8, retries: u32) -> (r: Action)
        requires
            offset <= old(self)@.data.len(),
        ensures
            (final(self)@, r@) == old(self)@.offer(use_crc, offset as int, number, retries),
    {
        let size: usize = if self.use_1k {
            1024
        } else {
            128
        };
        let header = if self.use_1k {
            STX
        } else {
            SOH
        };
        let block = cut_block(self.data.as_slice(), offset, size);
        let bytes = build_packet(header, number, &block, use_crc);
        self.phase = SendPhase::Block { use_crc, offset, number, retries };
        sending(bytes, Next::ReadByte { timeout_ms: TIMEOUT_MS })
    }

    fn announce_end(&mut self, retries: u32) -> (r: Action)
        ensures
            final(self)@ == old(self)@.to(SendPhase::Eot { retries }),
            r@ == modem::send_then(seq![EOT], NextView::ReadByte { timeout_ms: TIMEOUT_MS }),
    {
        self.phase = SendPhase::Eot { retries };
        sending(one_byte(EOT), Next::ReadByte { timeout_ms: TIMEOUT_MS })
    }

    /// Take in an event and say what to do next.
    pub fn step(&mut self, event: Event) -> (r: Action)
        requires
            old(self)@.wf(),
        ensures
            (final(self)@, r@) == old(self)@.step(event@),
            final(self)@.wf(),
    {
        match self.phase {
            SendPhase::Start => match event {
                Event::Byte(b) => {
                    if b == CRC_C || b == NAK {
                        self.offer(b == CRC_C, 0, 1, 0)
                    } else if b == CAN {
                        self.stop("XMODEM cancelled by receiver")
                    } else {
                        waiting(self.pending())
                    }
                },
                Event::Deadline => self.stop(
                    "XMODEM timeout waiting for receiver start signal ('C' or NAK)",
                ),
                _ => waiting(self.pending()),
            },
            SendPhase::Block { use_crc, offset, number, retries } => match event {
                Event::Byte(b) => {
                    if b == ACK {
                        let size: usize = if self.use_1k {
                            1024
                        } else {
                            128
                        };
                        let len = self.data.len();
                        let end: usize = if size < len - offset {
                            offset + size
                        } else {
                            len
                        };
                        let mut action = if end >= len {
                            self.announce_end(0)
                        } else {
                            self.offer(use_crc, end, number.wrapping_add(1), 0)
                        };
                        action.progress = Some(Progress { done: end, total: Some(len) });
                        action
                    } else if b == CAN {
                        self.stop("XMODEM transfer cancelled by receiver")
                    } else if retries + 1 >= MAX_RETRIES {
                        let reason = concat3(
                            "XMODEM block ",
                            decimal(number as u64).as_str(),
                            " failed after 10 retries",
                        );
                        self.stop(reason.as_str())
                    } else {
                        self.offer(use_crc, offset, number, retries + 1)
                    }
                },
                Event::Timeout => self.stop("Timeout reading byte"),
                Event::ReadFailed(e) => self.give_up("I/O error reading byte: ", e.as_str()),
                Event::WriteFailed(e) => self.give_up("XMODEM write error: ", e.as_str()),
                Event::FlushFailed(e) => self.give_up("XMODEM flush error: ", e.as_str()),
                _ => waiting(self.pending()),
            },
            SendPhase::Eot { retries } => match event {
                Event::Byte(b) => {
                    if b == ACK {
                        self.phase = SendPhase::Done;
                        waiting(Next::Done)
                    } else if retries + 1 >= MAX_RETRIES {
                        self.stop("XMODEM EOT not acknowledged")
                    } else {
                        self.announce_end(retries + 1)
                    }
                },
                Event::Timeout => self.stop("Timeout reading byte"),
                Event::ReadFailed(e) => self.give_up("I/O error reading byte: ", e.as_str()),
                Event::WriteFailed(e) => self.give_up("XMODEM write EOT error: ", e.as_str()),
                Event::FlushFailed(e) => self.give_up("XMODEM flush EOT error: ", e.as_str()),
                _ => waiting(self.pending()),
            },
            SendPhase::Done => waiting(self.pending()),
            SendPhase::Failed => waiting(self.pending()),
        }
    }
}

// ---------------------------------------------------------------------------
// Receiver
// ---------------------------------------------------------------------------

/// Where a receiver stands.
#[derive(Debug, Clone, Copy, PartialEq, Eq, Structural)]
pub enum ReceivePhase {
    /// The start signal was sent this many times.
    Start { attempts: u32 },
    /// Reading the body of a block whose header was this byte.
    Body { header: u8, first: bool },
    /// Waiting for the header of the next block.
    Header,
    /// All of the data arrived.
    Done,
    /// The transfer was given up.
    Failed,
}

/// An XMODEM receiver.
pub struct Receiver {
    use_crc: bool,
    received: Vec<u8>,
    expected_block: u8,
    phase: ReceivePhase,
}

/// An XMODEM receiver, as a value of the model.
#[verifier::ext_equal]
pub struct ReceiverView {
    pub use_crc: bool,
    pub received: Seq<u8>,
    pub expected_block: u8,
    pub phase: ReceivePhase,
}

impl View for Receiver {
    type V = ReceiverView;

    closed spec fn view(&self) -> ReceiverView {
        ReceiverView {
            use_crc: self.use_crc,
            received: self.received@,
            expected_block: self.expected_block,
            phase: self.phase,
        }
    }
}

/// The byte with which a receiver asks for a transfer.
pub open spec fn start_char(use_crc: bool) -> u8 {
    if use_crc {
        CRC_C
    } else {
        NAK
    }
}

/// The receiver before anything has happened.
pub open spec fn receiver_start(use_crc: bool) -> ReceiverView {
    ReceiverView {
        use_crc,
        received: Seq::empty(),
        expected_block: 1,
        phase: ReceivePhase::Start { attempts: 1 },
    }
}

impl ReceiverView {
    /// The start signal was sent at least once and not too often.
    pub open spec fn wf(self) -> bool {
        match self.phase {
            ReceivePhase::Start { attempts } => 1 <= attempts <= MAX_RETRIES,
            _ => true,
        }
    }

    /// The wait that belongs to the phase.
    pub open spec fn pending(self) -> NextView {
        match self.phase {
            ReceivePhase::Start { .. } => NextView::ReadByte { timeout_ms: START_REPLY_MS },
            ReceivePhase::Body { header, .. } => NextView::ReadExact(
                body_len(header, self.use_crc),
            ),
            ReceivePhase::Header => NextView::ReadByte { timeout_ms: TIMEOUT_MS },
            ReceivePhase::Done => NextView::Done,
            ReceivePhase::Failed => NextView::Failed("XMODEM transfer has ended"@),
        }
    }

    /// The same receiver in another phase.
    pub open spec fn to(self, phase: ReceivePhase) -> ReceiverView {
        ReceiverView { phase, ..self }
    }

    /// Give up with the given reason.
    pub open spec fn give_up(self, reason: Seq<char>) -> (ReceiverView, ActionView) {
        (self.to(ReceivePhase::Failed), modem::fail(reason))
    }

    /// Ask for the body of the block that this header opens.
    pub open spec fn open_block(self, header: u8, first: bool) -> (ReceiverView, ActionView) {
        let next = self.to(ReceivePhase::Body { header, first });
        (next, modem::wait(next.pending()))
    }

    /// Send the start signal once more, or give up after the last time.
    pub open spec fn ask_again(self, attempts: u32) -> (ReceiverView, ActionView) {
        if attempts < MAX_RETRIES {
            (
                self.to(ReceivePhase::Start { attempts: (attempts + 1) as u32 }),
                modem::send_then(
                    seq![start_char(self.use_crc)],
                    NextView::ReadByte { timeout_ms: START_REPLY_MS },
                ),
            )
        } else {
            self.give_up("XMODEM receive timeout waiting for sender"@)
        }
    }

    /// Take in the body of a block.
    ///
    /// A first block that is refused ends the transfer; a later one is asked
    /// for again by the answer alone.
    pub open spec fn take_body(self, header: u8, first: bool, body: Seq<u8>) -> (
        ReceiverView,
        ActionView,
    ) {
        let v = verdict(header, body, self.expected_block, self.use_crc);
        let reply = seq![verdict_reply(v)];
        let received = if v is Accept {
            self.received + body_block(header, body)
        } else {
            self.received
        };
        let advanced = v is Accept || (first && v is Duplicate);
        if first && (v is BadComplement || v is BadCheck || v is OutOfSync) {
            (
                self.to(ReceivePhase::Failed),
                modem::send_then(
                    reply,
                    NextView::Failed(verdict_error(v, self.expected_block, body[0])),
                ),
            )
        } else {
            (
                ReceiverView {
                    received,
                    expected_block: if advanced {
                        self.expected_block.wrapping_add(1)
                    } else {
                        self.expected_block
                    },
                    phase: ReceivePhase::Header,
                    ..self
                },
                ActionView {
                    send: reply,
                    progress: if advanced {
                        Some(Progress { done: received.len() as usize, total: None })
                    } else {
                        None
                    },
                    next: NextView::ReadByte { timeout_ms: TIMEOUT_MS },
                },
            )
        }
    }

    /// What the receiver does on an event.
    pub open spec fn step(self, event: EventView) -> (ReceiverView, ActionView) {
        match self.phase {
            ReceivePhase::Start { attempts } => match event {
                EventView::Byte(b) => if b == SOH || b == STX {
                    self.open_block(b, true)
                } else if b == EOT {
                    (self.to(ReceivePhase::Done), modem::send_then(seq![ACK], NextView::Done))
                } else if b == CAN {
                    self.give_up("XMODEM cancelled by sender"@)
                } else {
                    self.ask_again(attempts)
                },
                EventView::Timeout | EventView::ReadFailed(_) => self.ask_again(attempts),
                EventView::WriteFailed(e) => self.give_up("XMODEM write error: "@ + e),
                _ => (self, modem::wait(self.pending())),
            },
            ReceivePhase::Body { header, first } => match event {
                EventView::Bytes(body) => if body.len() == body_len(header, self.use_crc) {
                    self.take_body(header, first, body)
                } else {
                    (self, modem::wait(self.pending()))
                },
                EventView::ReadFailed(e) => if first {
                    self.give_up("XMODEM read block error: "@ + e)
                } else {
                    (
                        self.to(ReceivePhase::Header),
                        modem::wait(NextView::ReadByte { timeout_ms: TIMEOUT_MS }),
                    )
                },
                _ => (self, modem::wait(self.pending())),
            },
            ReceivePhase::Header => match event {
                EventView::Byte(b) => if b == EOT {
                    (
                        ReceiverView {
                            received: modem::unpadded(self.received),
                            phase: ReceivePhase::Done,
                            ..self
                        },
                        modem::send_then(seq![ACK], NextView::Done),
                    )
                } else if b == CAN {
                    self.give_up("XMODEM cancelled by sender"@)
                } else if b == SOH || b == STX {
                    self.open_block(b, false)
                } else {
                    (self, modem::wait(self.pending()))
                },
                EventView::Timeout => self.give_up("Timeout reading byte"@),
                EventView::ReadFailed(e) => self.give_up("I/O error reading byte: "@ + e),
                _ => (self, modem::wait(self.pending())),
            },
            ReceivePhase::Done | ReceivePhase::Failed => (self, modem::wait(self.pending())),
        }
    }
}

impl Receiver {
    /// A receiver, and its first action: the start signal.
    pub fn new(use_crc: bool) -> (r: (Receiver, Action))
        ensures
            r.0@ == receiver_start(use_crc),
            r.0@.wf(),
            r.1@ == modem::send_then(
                seq![start_char(use_crc)],
                NextView::ReadByte { timeout_ms: START_REPLY_MS },
            ),
    {
        let s = Receiver {
            use_crc,
            received: Vec::new(),
            expected_block: 1,
            phase: ReceivePhase::Start { attempts: 1 },
        };
        let c = if use_crc {
            CRC_C
        } else {
            NAK
        };
        (s, sending(one_byte(c), Next::ReadByte { timeout_ms: START_REPLY_MS }))
    }

    /// The data that arrived.
    pub fn into_data(self) -> (r: Vec<u8>)
        ensures
            r@ == self@.received,
    {
        self.received
    }

    fn pending(&self) -> (r: Next)
        ensures
            r@ == self@.pending(),
    {
        match self.phase {
            ReceivePhase::Start { .. } => Next::ReadByte { timeout_ms: START_REPLY_MS },
            ReceivePhase::Body { header, .. } => {
                let size: usize = if header == STX {
                    1024
                } else {
                    128
                };
                let check: usize = if self.use_crc {
                    2
                } else {
                    1
                };
                Next::ReadExact(2 + size + check)
            },
            ReceivePhase::Header => Next::ReadByte { timeout_ms: TIMEOUT_MS },
            ReceivePhase::Done => Next::Done,
            ReceivePhase::Failed => Next::Failed("XMODEM transfer has ended".to_owned()),
        }
    }

    fn give_up(&mut self, prefix: &str, detail: &str) -> (r: Action)
        ensures
            (final(self)@, r@) == old(self)@.give_up(prefix@ + detail@),
    {
        self.phase = ReceivePhase::Failed;
        failing(prefix, detail)
    }

    fn stop(&mut self, reason: &str) -> (r: Action)
        ensures
            (final(self)@, r@) == old(self)@.give_up(reason@),
    {
        self.phase = ReceivePhase::Failed;
        failing_with(reason)
    }

    fn open_block(&mut self, header: u8, first: bool) -> (r: Action)
        ensures
            (final(self)@, r@) == old(self)@.open_block(header, first),
    {
        self.phase = ReceivePhase::Body { header, first };
        waiting(self.pending())
    }

    fn ask_again(&mut self, attempts: u32) -> (r: Action)
        ensures
            (final(self)@, r@) == old(self)@.ask_again(attempts),
            1 <= attempts ==> final(self)@.wf(),
    {
        if attempts < MAX_RETRIES {
            self.phase = ReceivePhase::Start { attempts: attempts + 1 };
            let c = if self.use_crc {
                CRC_C
            } else {
                NAK
            };
            sending(one_byte(c), Next::ReadByte { timeout_ms: START_REPLY_MS })
        } else {
            self.stop("XMODEM receive timeout waiting for sender")
        }
    }

    fn take_body(&mut self, header: u8, first: bool, body: Vec<u8>) -> (r: Action)
        requires
            body@.len() == body_len(header, old(self)@.use_crc),
        ensures
            (final(self)@, r@) == old(self)@.take_body(header, first, body@),
            final(self)@.wf(),
    {
        let (reply, outcome) = handle_incoming_block(
            header,
            &body,
            self.expected_block,
            self.use_crc,
            &mut self.received,
        );
        let bytes = one_byte(reply);
        match outcome {
            Ok(appended) => {
                self.phase = ReceivePhase::Header;
                let mut action = sending(bytes, Next::ReadByte { timeout_ms: TIMEOUT_MS });
                if appended || first {
                    self.expected_block = self.expected_block.wrapping_add(1);
                    action.progress = Some(Progress { done: self.received.len(), total: None });
                }
                action
            },
            Err(e) => {
                if first {
                    self.phase = ReceivePhase::Failed;
                    sending(bytes, Next::Failed(e))
                } else {
                    self.phase = ReceivePhase::Header;
                    sending(bytes, Next::ReadByte { timeout_ms: TIMEOUT_MS })
                }
            },
        }
    }

    /// Take in an event and say what to do next.
    pub fn step(&mut self, event: Event) -> (r: Action)
        requires
            old(self)@.wf(),
        ensures
            (final(self)@, r@) == old(self)@.step(event@),
            final(self)@.wf(),
    {
        match self.phase {
            ReceivePhase::Start { attempts } => match event {
                Event::Byte(b) => {
                    if b == SOH || b == STX {
                        self.open_block(b, true)
                    } else if b == EOT {
                        self.phase = ReceivePhase::Done;
                        sending(one_byte(ACK), Next::Done)
                    } else if b == CAN {
                        self.stop("XMODEM cancelled by sender")
                    } else {
                        self.ask_again(attempts)
                    }
                },
                Event::Timeout => self.ask_again(attempts),
                Event::ReadFailed(_) => self.ask_again(attempts),
                Event::WriteFailed(e) => self.give_up("XMODEM write error: ", e.as_str()),
                _ => waiting(self.pending()),
            },
            ReceivePhase::Body { header, first } => match event {
                Event::Bytes(body) => {
                    let size: usize = if header == STX {
                        1024
                    } else {
                        128
                    };
                    let check: usize = if self.use_crc {
                        2
                    } else {
                        1
                    };
                    if body.len() == 2 + size + check {
                        self.take_body(header, first, body)
                    } else {
                        waiting(self.pending())
                    }
                },
                Event::ReadFailed(e) => {
                    if first {
                        self.give_up("XMODEM read block error: ", e.as_str())
                    } else {
                        self.phase = ReceivePhase::Header;
                        waiting(Next::ReadByte { timeout_ms: TIMEOUT_MS })
                    }
                },
                _ => waiting(self.pending()),
            },
            ReceivePhase::Header => match event {
                Event::Byte(b) => {
                    if b == EOT {
                        trim_padding(&mut self.received);
                        self.phase = ReceivePhase::Done;
                        sending(one_byte(ACK), Next::Done)
                    } else if b == CAN {
                        self.stop("XMODEM cancelled by sender")
                    } else if b == SOH || b == STX {
                        self.open_block(b, false)
                    } else {
                        waiting(self.pending())
                    }
                },
                Event::Timeout => self.stop("Timeout reading byte"),
                Event::ReadFailed(e) => self.give_up("I/O error reading byte: ", e.as_str()),
                _ => waiting(self.pending()),
            },
            ReceivePhase::Done => waiting(self.pending()),
            ReceivePhase::Failed => waiting(self.pending()),
        }
    }
}

// ---------------------------------------------------------------------------
// A whole transfer
// ---------------------------------------------------------------------------

/// Carry the bytes of one write to a receiver: the first byte, and the rest of
/// them where the receiver then asks for that many.
pub open spec fn deliver(rx: ReceiverView, bytes: Seq<u8>) -> (ReceiverView, ActionView) {
    let (opened, action) = rx.step(EventView::Byte(bytes[0]));
    if action.next == NextView::ReadExact(bytes.len() - 1) {
        opened.step(EventView::Bytes(bytes.skip(1)))
    } else {
        (opened, action)
    }
}

/// Carry bytes and answers back and forth until the sender is done, for at most
/// `rounds` rounds. The result is what the receiver then holds.
pub open spec fn exchange(
    tx: SenderView,
    rx: ReceiverView,
    bytes: Seq<u8>,
    rounds: nat,
) -> Option<Seq<u8>>
    decreases rounds,
{
    if rounds == 0 || bytes.len() == 0 {
        None
    } else {
        let (rx2, answer) = deliver(rx, bytes);
        if answer.send.len() != 1 {
            None
        } else {
            let (tx2, action) = tx.step(EventView::Byte(answer.send[0]));
            if action.next is Done && rx2.phase is Done {
                Some(rx2.received)
            } else {
                exchange(tx2, rx2, action.send, (rounds - 1) as nat)
            }
        }
    }
}

/// A receiver accepts the packet that carries the block it expects.
pub proof fn packet_is_accepted(
    use_1k: bool,
    number: u8,
    block: Seq<u8>,
    use_crc: bool,
)
    requires
        block.len() == block_size(use_1k),
    ensures
        ({
            let p = packet(block_header(use_1k), number, block, use_crc);
            &&& p.len() == 1 + body_len(block_header(use_1k), use_crc)
            &&& verdict(p[0], p.skip(1), number, use_crc) is Accept
            &&& body_block(p[0], p.skip(1)) == block
        }),
{
    let p = packet(block_header(use_1k), number, block, use_crc);
    let body = p.skip(1);
    let size = block_size(use_1k);
    assert(body[0] == number);
    assert(body[1] == !number);
    assert(body.subrange(2, 2 + size) =~= block);
    assert(body.skip(2 + size) =~= check_bytes(block, use_crc));
}

#[verifier::spinoff_prover]
#[verifier::rlimit(60)]
proof fn lemma_exchange(
    data: Seq<u8>,
    use_1k: bool,
    use_crc: bool,
    offset: int,
    number: u8,
    rx: ReceiverView,
    rounds: nat,
)
    requires
        data.len() <= usize::MAX,
        data.len() == 0 || data.last() != PAD,
        0 <= offset < data.len() || (offset == 0 && data.len() == 0),
        rx.use_crc == use_crc,
        rx.expected_block == number,
        rx.received == data.take(offset),
        rx.phase is Header || rx.phase is Start,
        rounds >= data.len() - offset + 2,
    ensures
        ({
            let (tx, action) = sender_start(data, use_1k).offer(use_crc, offset, number, 0);
            exchange(tx, rx, action.send, rounds) == Some(data)
        }),
    decreases rounds,
{
    let (tx, action) = sender_start(data, use_1k).offer(use_crc, offset, number, 0);
    let bytes = action.send;
    let size = block_size(use_1k);
    let end = chunk_end(data.len() as int, offset, size);
    let block = block_at(data, offset, size);
    assert(block.len() == size);
    packet_is_accepted(use_1k, number, block, use_crc);
    let (rx2, answer) = deliver(rx, bytes);
    let first = rx.phase is Start;
    let opened = rx.to(ReceivePhase::Body { header: bytes[0], first });
    assert(rx.step(EventView::Byte(bytes[0])).0 == opened);
    assert((rx2, answer) == opened.take_body(bytes[0], first, bytes.skip(1)));
    assert(answer.send =~= seq![ACK]);
    assert(answer.send[0] == ACK);
    assert(rx2.received == rx.received + block);
    let (tx2, action2) = tx.step(EventView::Byte(ACK));
    assert(rx2.phase is Header);
    assert(exchange(tx, rx, bytes, rounds) == exchange(
        tx2,
        rx2,
        action2.send,
        (rounds - 1) as nat,
    ));
    if end < data.len() {
        assert(rx2.received =~= data.take(end));
        lemma_exchange(
            data,
            use_1k,
            use_crc,
            end,
            number.wrapping_add(1),
            rx2,
            (rounds - 1) as nat,
        );
        let (tx3, action3) = sender_start(data, use_1k).offer(
            use_crc,
            end,
            number.wrapping_add(1),
            0,
        );
        assert(tx2 =~= tx3);
        assert(action2.send == action3.send);
    } else {
        let n = (size - (end - offset)) as nat;
        assert(rx2.received =~= data + modem::padding(n));
        modem::lemma_unpadded_padding(data, n);
        assert(action2.send =~= seq![EOT]);
        let (rx3, answer3) = deliver(rx2, action2.send);
        assert(action2.send[0] == EOT);
        assert(rx3.received == data);
        assert(answer3.send =~= seq![ACK]);
        assert(answer3.send[0] == ACK);
    }
}

/// Over a line that loses nothing, a receiver ends up with exactly the data
/// that the sender was given, with either block size and either check.
///
/// Data that ends with the padding byte is left out: XMODEM carries no length,
/// so a receiver cannot tell such a byte from padding.
pub proof fn transfer_delivers_the_data(data: Seq<u8>, use_1k: bool, use_crc: bool)
    requires
        data.len() <= usize::MAX,
        data.len() == 0 || data.last() != PAD,
    ensures
        ({
            let (tx, action) = sender_start(data, use_1k).step(
                EventView::Byte(start_char(use_crc)),
            );
            exchange(tx, receiver_start(use_crc), action.send, data.len() + 2) == Some(data)
        }),
{
    assert(data.take(0) =~= Seq::<u8>::empty());
    lemma_exchange(
        data,
        use_1k,
        use_crc,
        0,
        1,
        receiver_start(use_crc),
        data.len() + 2,
    );
}

/// A block that the receiver has already taken is acknowledged again and leaves
/// what was received unchanged.
pub proof fn repeated_block_changes_nothing(
    rx: ReceiverView,
    use_1k: bool,
    block: Seq<u8>,
)
    requires
        rx.phase is Header,
        block.len() == block_size(use_1k),
    ensures
        ({
            let p = packet(
                block_header(use_1k),
                rx.expected_block.wrapping_sub(1),
                block,
                rx.use_crc,
            );
            let (after, answer) = deliver(rx, p);
            &&& after == rx
            &&& answer.send == seq![ACK]
        }),
{
    let number = rx.expected_block.wrapping_sub(1);
    let p = packet(block_header(use_1k), number, block, rx.use_crc);
    packet_is_accepted(use_1k, number, block, rx.use_crc);
    let opened = rx.to(ReceivePhase::Body { header: p[0], first: false });
    assert(rx.step(EventView::Byte(p[0])).0 == opened);
    assert(deliver(rx, p) == opened.take_body(p[0], false, p.skip(1)));
    assert(p.skip(1)[0] == number);
    assert(number != rx.expected_block);
    assert(deliver(rx, p).0 =~= rx);
}

/// What a receiver holds only ever grows by whole blocks until the end of the
/// transmission, and an event other than that end never shortens it.
pub proof fn received_data_is_kept(rx: ReceiverView, event: EventView)
    ensures
        rx.received.is_prefix_of(rx.step(event).0.received) || rx.step(event).0.phase is Done,
{
}

} // verus!
