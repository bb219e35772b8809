//! YMODEM protocol (YMODEM-Batch with metadata).
use vstd::prelude::*;
use vstd::string::*;

use crate::modem;
use crate::modem::xmodem;
use crate::modem::xmodem::{build_packet, cut_block};
use crate::modem::{
    crc16_ccitt, failing, failing_with, one_byte, sending, trim_padding, waiting, Action,
    ActionView, Event, EventView, Next, NextView, Progress, ACK, CAN, CRC_C, EOT, MAX_RETRIES, NAK,
    PAD, SOH, STX, TIMEOUT_MS,
};
use crate::text;
use crate::text::{concat3, decimal, decimal_usize, from_utf8_lossy, parse_usize, push_hex2};

verus! {

/// Time between two looks for the receiver's start signal, in milliseconds.
pub const START_POLL_MS: u64 = 500;
/// Time within which the receiver's start signal must come, in milliseconds.
pub const START_DEADLINE_MS: u64 = 30_000;
/// Time a receiver waits for a sender after each start signal, in milliseconds.
pub const START_REPLY_MS: u64 = 1000;
/// Time either side waits for the other to close the batch, in milliseconds.
pub const CLOSE_MS: u64 = 500;
/// Bytes of payload in a header block.
pub const HEADER_LEN: usize = 128;

// ---------------------------------------------------------------------------
// Header block
// ---------------------------------------------------------------------------

/// `n` zero bytes.
pub open spec fn zeros(n: nat) -> Seq<u8> {
    Seq::new(n, |i: int| 0u8)
}

/// Name, a zero byte and the size in decimal.
pub open spec fn header_text(name: Seq<char>, size: nat) -> Seq<u8> {
    vstd::utf8::encode_utf8(name) + seq![0u8] + vstd::utf8::encode_utf8(text::dec_nat(size))
}

/// Whether a name and a size fit into a header block.
pub open spec fn header_fits(name: Seq<char>, size: nat) -> bool {
    header_text(name, size).len() <= HEADER_LEN
}

/// The payload of the header block: name, zero, size, and zeros to the end.
pub open spec fn header_payload(name: Seq<char>, size: nat) -> Seq<u8> {
    let t = header_text(name, size);
    t + zeros((HEADER_LEN - t.len()) as nat)
}

/// The header block on the line.
pub open spec fn header_packet(name: Seq<char>, size: nat) -> Seq<u8> {
    xmodem::packet(SOH, 0, header_payload(name, size), true)
}

/// The block that ends a batch.
pub open spec fn null_packet() -> Seq<u8> {
    xmodem::packet(SOH, 0, zeros(HEADER_LEN as nat), true)
}

fn fill_zeros(payload: &mut Vec<u8>)
    requires
        old(payload)@.len() <= HEADER_LEN,
    ensures
        final(payload)@ == old(payload)@ + zeros((HEADER_LEN - old(payload)@.len()) as nat),
{
    let ghost had = payload@;
    assert(had + zeros(0) =~= had);
    while payload.len() < HEADER_LEN
        invariant
            had.len() <= payload.len() <= HEADER_LEN,
            payload@ == had + zeros((payload.len() - had.len()) as nat),
        decreases HEADER_LEN - payload.len(),
    {
        let ghost n = (payload.len() - had.len()) as nat;
        payload.push(0);
        assert(payload@ =~= had + zeros(n + 1));
    }
}

/// Whether a name and a size fit into a header block.
pub fn fits_header(name: &str, size: usize) -> (r: bool)
    ensures
        r == header_fits(name@, size as nat),
{
    let a = name.as_bytes().len();
    let b = decimal_usize(size).as_str().as_bytes().len();
    a <= HEADER_LEN && b <= HEADER_LEN && a + 1 + b <= HEADER_LEN
}

/// Build the header block.
pub fn build_header(name: &str, size: usize) -> (r: Vec<u8>)
    requires
        header_fits(name@, size as nat),
    ensures
        r@ == header_packet(name@, size as nat),
{
    let mut payload: Vec<u8> = Vec::new();
    payload.extend_from_slice(name.as_bytes());
    payload.push(0);
    let digits = decimal_usize(size);
    payload.extend_from_slice(digits.as_str().as_bytes());
    assert(payload@ =~= header_text(name@, size as nat));
    fill_zeros(&mut payload);
    build_packet(SOH, 0, &payload, true)
}

/// Build the block that ends a batch.
pub fn build_null_block() -> (r: Vec<u8>)
    ensures
        r@ == null_packet(),
{
    let mut payload: Vec<u8> = Vec::new();
    fill_zeros(&mut payload);
    assert(payload@ =~= zeros(HEADER_LEN as nat));
    build_packet(SOH, 0, &payload, true)
}

/// The position of the first byte that is zero, or, where `or_space`, a space.
pub open spec fn first_end(s: Seq<u8>, or_space: bool) -> Option<int>
    decreases s.len(),
{
    if s.len() == 0 {
        None
    } else if s[0] == 0 || (or_space && s[0] == 0x20) {
        Some(0)
    } else {
        match first_end(s.skip(1), or_space) {
            Some(i) => Some(i + 1),
            None => None,
        }
    }
}

/// The file name in a header payload; empty where there is none.
pub open spec fn header_name(payload: Seq<u8>) -> Seq<char> {
    match first_end(payload, false) {
        Some(end) => text::utf8_lossy(payload.take(end)),
        None => Seq::empty(),
    }
}

/// The file size in a header payload, where it holds one.
pub open spec fn header_size(payload: Seq<u8>) -> Option<nat> {
    match first_end(payload, false) {
        Some(end) => if text::utf8_lossy(payload.take(end)).len() == 0 {
            None
        } else {
            let rest = payload.skip(end + 1);
            match first_end(rest, true) {
                Some(e) => text::parse_nat(text::utf8_lossy(rest.take(e)), usize::MAX as nat),
                None => None,
            }
        },
        None => None,
    }
}

fn find_end(s: &[u8], from: usize, or_space: bool) -> (r: Option<usize>)
    requires
        from <= s.len(),
    ensures
        (match r {
            Some(i) => from <= i < s.len() && first_end(s@.skip(from as int), or_space) == Some(
                i - from,
            ),
            None => first_end(s@.skip(from as int), or_space) is None,
        }),
    decreases s.len() - from,
{
    if from == s.len() {
        return None;
    }
    if s[from] == 0 || (or_space && s[from] == 0x20) {
        return Some(from);
    }
    assert(s@.skip(from as int).skip(1) =~= s@.skip(from + 1));
    find_end(s, from + 1, or_space)
}

/// Read the file name and size out of a header payload.
pub fn parse_header(payload: &[u8]) -> (r: (String, Option<usize>))
    ensures
        r.0@ == header_name(payload@),
        (match r.1 {
            Some(n) => header_size(payload@) == Some(n as nat),
            None => header_size(payload@) is None,
        }),
{
    assert(payload@.skip(0) =~= payload@);
    let end = match find_end(payload, 0, false) {
        Some(end) => end,
        None => return (String::new(), None),
    };
    let name_bytes = vstd::slice::slice_subrange(payload, 0, end);
    assert(name_bytes@ =~= payload@.take(end as int));
    let name = from_utf8_lossy(name_bytes);
    if name.as_str().is_empty() {
        assert(name@ =~= Seq::<char>::empty());
        return (String::new(), None);
    }
    let size = match find_end(payload, end + 1, true) {
        Some(e) => {
            let size_bytes = vstd::slice::slice_subrange(payload, end + 1, e);
            assert(size_bytes@ =~= payload@.skip(end + 1).take(e - (end + 1)));
            parse_usize(from_utf8_lossy(size_bytes).as_str())
        },
        None => None,
    };
    (name, size)
}

// ---------------------------------------------------------------------------
// Sender
// ---------------------------------------------------------------------------

/// Where a sender stands.
#[derive(Debug, Clone, Copy, PartialEq, Eq, Structural)]
pub enum SendPhase {
    /// Waiting for the receiver's start signal.
    Start,
    /// The header block is on the line.
    HeaderAck,
    /// The header was acknowledged; the receiver is to ask for the data.
    DataStart,
    /// The block at `offset` is on the line, after `retries` refusals.
    Block { offset: usize, number: u8, retries: u32 },
    /// The end of the transmission was announced once.
    FirstEot,
    /// The end of the transmission was announced twice.
    SecondEot,
    /// The receiver may ask for the next file.
    Batch,
    /// The block that ends the batch is on the line.
    NullAck,
    /// The transfer is complete.
    Done,
    /// The transfer was given up.
    Failed,
}

/// A YMODEM sender.
pub struct Sender {
    name: String,
    data: Vec<u8>,
    phase: SendPhase,
}

/// A YMODEM sender, as a value of the model.
#[verifier::ext_equal]
pub struct SenderView {
    pub name: Seq<char>,
    pub data: Seq<u8>,
    pub phase: SendPhase,
}

impl View for Sender {
    type V = SenderView;

    closed spec fn view(&self) -> SenderView {
        SenderView { name: self.name@, data: self.data@, phase: self.phase }
    }
}

/// The sender of some data before anything has happened.
pub open spec fn sender_start(name: Seq<char>, data: Seq<u8>) -> SenderView {
    SenderView { name, data, phase: SendPhase::Start }
}

/// A byte as it stands in a message.
pub open spec fn byte_text(b: u8) -> Seq<char> {
    "0x"@ + text::hex2(b)
}

fn byte_string(b: u8) -> (r: String)
    ensures
        r@ == byte_text(b),
{
    let mut out = "0x".to_owned();
    push_hex2(&mut out, b);
    out
}

/// The wait for a byte within the usual time.
pub open spec fn usual_wait() -> NextView {
    NextView::ReadByte { timeout_ms: TIMEOUT_MS }
}

impl SenderView {
    /// The header fits, the block on the line starts inside the data, and
    /// retries are bounded.
    pub open spec fn wf(self) -> bool {
        &&& header_fits(self.name, self.data.len())
        &&& match self.phase {
            SendPhase::Block { offset, retries, .. } => offset <= self.data.len() && retries
                < MAX_RETRIES,
            _ => true,
        }
    }

    /// The wait that belongs to the phase.
    pub open spec fn pending(self) -> NextView {
        match self.phase {
            SendPhase::Start => NextView::Poll {
                timeout_ms: START_POLL_MS,
                deadline_ms: START_DEADLINE_MS,
                restart: false,
            },
            SendPhase::Batch => NextView::ReadByte { timeout_ms: CLOSE_MS },
            SendPhase::Done => NextView::Done,
            SendPhase::Failed => NextView::Failed("YMODEM transfer has ended"@),
            _ => usual_wait(),
        }
    }

    /// The same sender in another phase.
    pub open spec fn to(self, phase: SendPhase) -> SenderView {
        SenderView { phase, ..self }
    }

    /// Go to another phase, writing the given bytes.
    pub open spec fn go(self, phase: SendPhase, bytes: Seq<u8>) -> (SenderView, ActionView) {
        (self.to(phase), modem::send_then(bytes, self.to(phase).pending()))
    }

    /// Give up with the given reason.
    pub open spec fn give_up(self, reason: Seq<char>) -> (SenderView, ActionView) {
        (self.to(SendPhase::Failed), modem::fail(reason))
    }

    /// Put the block at `offset` on the line.
    pub open spec fn offer(self, offset: int, number: u8, retries: u32) -> (
        SenderView,
        ActionView,
    ) {
        self.go(
            SendPhase::Block { offset: offset as usize, number, retries },
            xmodem::packet_at(self.data, true, true, offset, number),
        )
    }

    /// Stay and wait on.
    pub open spec fn stay(self) -> (SenderView, ActionView) {
        (self, modem::wait(self.pending()))
    }

    /// What the sender does when the expected byte does not come.
    pub open spec fn no_byte(self, event: EventView) -> (SenderView, ActionView) {
        match event {
            EventView::Timeout => self.give_up("Timeout reading byte"@),
            EventView::ReadFailed(e) => self.give_up("I/O error reading byte: "@ + e),
            _ => self.stay(),
        }
    }

    /// What the sender does on an answer to the block on the line.
    pub open spec fn block_answer(self, offset: int, number: u8, retries: u32, b: u8) -> (
        SenderView,
        ActionView,
    ) {
        if b == ACK {
            let len = self.data.len() as int;
            let end = xmodem::chunk_end(len, offset, 1024);
            let next = if end >= len {
                self.go(SendPhase::FirstEot, seq![EOT])
            } else {
                self.offer(end, number.wrapping_add(1), 0)
            };
            (
                next.0,
                ActionView {
                    progress: Some(Progress { done: end as usize, total: Some(len as usize) }),
                    ..next.1
                },
            )
        } else if b == CAN {
            self.give_up("YMODEM transfer cancelled by receiver"@)
        } else if retries + 1 >= MAX_RETRIES {
            self.give_up(
                "YMODEM block "@ + text::dec_nat(number as nat) + " failed after 10 retries"@,
            )
        } else {
            self.offer(offset, number, (retries + 1) as u32)
        }
    }

    /// What the sender does on an event.
    pub open spec fn step(self, event: EventView) -> (SenderView, ActionView) {
        match self.phase {
            SendPhase::Start => match event {
                EventView::Byte(b) => if b == CRC_C {
                    self.go(SendPhase::HeaderAck, header_packet(self.name, self.data.len()))
                } else if b == CAN {
                    self.give_up("YMODEM cancelled by receiver"@)
                } else {
                    self.stay()
                },
                EventView::Deadline => self.give_up(
                    "YMODEM timeout waiting for "@ + byte_text(CRC_C),
                ),
                _ => self.stay(),
            },
            SendPhase::HeaderAck => match event {
                EventView::Byte(b) => if b == ACK {
                    self.go(SendPhase::DataStart, Seq::empty())
                } else {
                    self.give_up("YMODEM header ACK missing (got "@ + byte_text(b) + ")"@)
                },
                EventView::WriteFailed(e) => self.give_up("YMODEM header write error: "@ + e),
                EventView::FlushFailed(e) => self.give_up("YMODEM header flush error: "@ + e),
                _ => self.no_byte(event),
            },
            SendPhase::DataStart => match event {
                EventView::Byte(b) => if b == CRC_C {
                    self.offer(0, 1, 0)
                } else {
                    self.give_up("YMODEM data start 'C' missing (got "@ + byte_text(b) + ")"@)
                },
                _ => self.no_byte(event),
            },
            SendPhase::Block { offset, number, retries } => match event {
                EventView::Byte(b) => self.block_answer(offset as int, number, retries, b),
                EventView::WriteFailed(e) => self.give_up("YMODEM write error: "@ + e),
                EventView::FlushFailed(e) => self.give_up("YMODEM flush error: "@ + e),
                _ => self.no_byte(event),
            },
            SendPhase::FirstEot => match event {
                EventView::Byte(b) => if b == NAK {
                    self.go(SendPhase::SecondEot, seq![EOT])
                } else {
                    self.go(SendPhase::Batch, Seq::empty())
                },
                _ => self.no_byte(event),
            },
            SendPhase::SecondEot => match event {
                EventView::Byte(b) => if b == ACK {
                    self.go(SendPhase::Batch, Seq::empty())
                } else {
                    self.give_up("YMODEM EOT second ACK missing"@)
                },
                _ => self.no_byte(event),
            },
            SendPhase::Batch => match event {
                EventView::Byte(b) => if b == CRC_C {
                    self.go(SendPhase::NullAck, null_packet())
                } else {
                    self.go(SendPhase::Done, Seq::empty())
                },
                EventView::Timeout | EventView::ReadFailed(_) => self.go(
                    SendPhase::Done,
                    Seq::empty(),
                ),
                _ => self.stay(),
            },
            SendPhase::NullAck => match event {
                EventView::Byte(_) | EventView::Timeout | EventView::ReadFailed(_) => self.go(
                    SendPhase::Done,
                    Seq::empty(),
                ),
                EventView::WriteFailed(e) => self.give_up("YMODEM null block write error: "@ + e),
                _ => self.stay(),
            },
            SendPhase::Done | SendPhase::Failed => self.stay(),
        }
    }
}

impl Sender {
    /// A sender of the given data under the given name. Its first action is to
    /// wait for the receiver's start signal.
    pub fn new(name: &str, data: Vec<u8>) -> (r: (Sender, Action))
        requires
            header_fits(name@, data@.len()),
        ensures
            r.0@ == sender_start(name@, data@),
            r.0@.wf(),
            r.1@ == modem::wait(
                NextView::Poll {
                    timeout_ms: START_POLL_MS,
                    deadline_ms: START_DEADLINE_MS,
                    restart: true,
                },
            ),
    {
        let s = Sender { name: name.to_owned(), data, phase: SendPhase::Start };
        let first = Next::Poll {
            timeout_ms: START_POLL_MS,
            deadline_ms: START_DEADLINE_MS,
            restart: true,
        };
        (s, waiting(first))
    }

    /// Number of bytes in the data.
    pub fn total(&self) -> (r: usize)
        ensures
            r == self@.data.len(),
    {
        self.data.len()
    }

    fn pending(&self) -> (r: Next)
        ensures
            r@ == self@.pending(),
    {
        match self.phase {
            SendPhase::Start => Next::Poll {
                timeout_ms: START_POLL_MS,
                deadline_ms: START_DEADLINE_MS,
                restart: false,
            },
            SendPhase::Batch => Next::ReadByte { timeout_ms: CLOSE_MS },
            SendPhase::Done => Next::Done,
            SendPhase::Failed => Next::Failed("YMODEM transfer has ended".to_owned()),
            _ => Next::ReadByte { timeout_ms: TIMEOUT_MS },
        }
    }

    fn go(&mut self, phase: SendPhase, bytes: Vec<u8>) -> (r: Action)
        ensures
            (final(self)@, r@) == old(self)@.go(phase, bytes@),
    {
        self.phase = phase;
        sending(bytes, self.pending())
    }

    fn stay(&self) -> (r: Action)
        ensures
            (self@, r@) == self@.stay(),
    {
        waiting(self.pending())
    }

    fn give_up(&mut self, prefix: &str, detail: &str) -> (r: Action)
        ensures
            (final(self)@, r@) == old(self)@.give_up(prefix@ + detail@),
    {
        self.phase = SendPhase::Failed;
        failing(prefix, detail)
    }

    fn stop(&mut self, reason: &str) -> (r: Action)
        ensures
            (final(self)@, r@) == old(self)@.give_up(reason@),
    {
        self.phase = SendPhase::Failed;
        failing_with(reason)
    }

    fn no_byte(&mut self, event: Event) -> (r: Action)
        ensures
            (final(self)@, r@) == old(self)@.no_byte(event@),
    {
        match event {
            Event::Timeout => self.stop("Timeout reading byte"),
            Event::ReadFailed(e) => self.give_up("I/O error reading byte: ", e.as_str()),
            _ => self.stay(),
        }
    }

    fn offer(&mut self, offset: usize, number: u8, retries: u32) -> (r: Action)
        requires
            offset <= old(self)@.data.len(),
        ensures
            (final(self)@, r@) == old(self)@.offer(offset as int, number, retries),
    {
        let block = cut_block(self.data.as_slice(), offset, 1024);
        let bytes = build_packet(STX, number, &block, true);
        self.go(SendPhase::Block { offset, number, retries }, bytes)
    }

    fn block_answer(&mut self, offset: usize, number: u8, retries: u32, b: u8) -> (r: Action)
        requires
            old(self)@.wf(),
            offset <= old(self)@.data.len(),
            retries < MAX_RETRIES,
        ensures
            (final(self)@, r@) == old(self)@.block_answer(offset as int, number, retries, b),
            final(self)@.wf(),
    {
        if b == ACK {
            let len = self.data.len();
            let end: usize = if 1024 < len - offset {
                offset + 1024
            } else {
                len
            };
            let mut action = if end >= len {
                self.go(SendPhase::FirstEot, one_byte(EOT))
            } else {
                self.offer(end, number.wrapping_add(1), 0)
            };
            action.progress = Some(Progress { done: end, total: Some(len) });
            action
        } else if b == CAN {
            self.stop("YMODEM transfer cancelled by receiver")
        } else if retries + 1 >= MAX_RETRIES {
            let reason = concat3(
                "YMODEM block ",
                decimal(number as u64).as_str(),
                " failed after 10 retries",
            );
            self.stop(reason.as_str())
        } else {
            self.offer(offset, number, retries + 1)
        }
    }

    /// Take in an event and say what to do next.
    pub fn step(&mut self, event: Event) -> (r: Action)
        requires
            old(self)@.wf(),
        ensures
            (final(self)@, r@) == old(self)@.step(event@),
            final(self)@.wf(),
    {
        match self.phase {
            SendPhase::Start => match event {
                Event::Byte(b) => {
                    if b == CRC_C {
                        let bytes = build_header(self.name.as_str(), self.data.len());
                        self.go(SendPhase::HeaderAck, bytes)
                    } else if b == CAN {
                        self.stop("YMODEM cancelled by receiver")
                    } else {
                        self.stay()
                    }
                },
                Event::Deadline => self.give_up(
                    "YMODEM timeout waiting for ",
                    byte_string(CRC_C).as_str(),
                ),
                _ => self.stay(),
            },
            SendPhase::HeaderAck => match event {
                Event::Byte(b) => {
                    if b == ACK {
                        self.go(SendPhase::DataStart, Vec::new())
                    } else {
                        let reason = concat3(
                            "YMODEM header ACK missing (got ",
                            byte_string(b).as_str(),
                            ")",
                        );
                        self.stop(reason.as_str())
                    }
                },
                Event::WriteFailed(e) => self.give_up("YMODEM header write error: ", e.as_str()),
                Event::FlushFailed(e) => self.give_up("YMODEM header flush error: ", e.as_str()),
                _ => self.no_byte(event),
            },
            SendPhase::DataStart => match event {
                Event::Byte(b) => {
                    if b == CRC_C {
                        self.offer(0, 1, 0)
                    } else {
                        let reason = concat3(
                            "YMODEM data start 'C' missing (got ",
                            byte_string(b).as_str(),
                            ")",
                        );
                        self.stop(reason.as_str())
                    }
                },
                _ => self.no_byte(event),
            },
            SendPhase::Block { offset, number, retries } => match event {
                Event::Byte(b) => self.block_answer(offset, number, retries, b),
                Event::WriteFailed(e) => self.give_up("YMODEM write error: ", e.as_str()),
                Event::FlushFailed(e) => self.give_up("YMODEM flush error: ", e.as_str()),
                _ => self.no_byte(event),
            },
            SendPhase::FirstEot => match event {
                Event::Byte(b) => {
                    if b == NAK {
                        self.go(SendPhase::SecondEot, one_byte(EOT))
                    } else {
                        self.go(SendPhase::Batch, Vec::new())
                    }
                },
                _ => self.no_byte(event),
            },
            SendPhase::SecondEot => match event {
                Event::Byte(b) => {
                    if b == ACK {
                        self.go(SendPhase::Batch, Vec::new())
                    } else {
                        self.stop("YMODEM EOT second ACK missing")
                    }
                },
                _ => self.no_byte(event),
            },
            SendPhase::Batch => match event {
                Event::Byte(b) => {
                    if b == CRC_C {
                        self.go(SendPhase::NullAck, build_null_block())
                    } else {
                        self.go(SendPhase::Done, Vec::new())
                    }
                },
                Event::Timeout => self.go(SendPhase::Done, Vec::new()),
                Event::ReadFailed(_) => self.go(SendPhase::Done, Vec::new()),
                _ => self.stay(),
            },
            SendPhase::NullAck => match event {
                Event::Byte(_) => self.go(SendPhase::Done, Vec::new()),
                Event::Timeout => self.go(SendPhase::Done, Vec::new()),
                Event::ReadFailed(_) => self.go(SendPhase::Done, Vec::new()),
                Event::WriteFailed(e) => self.give_up(
                    "YMODEM null block write error: ",
                    e.as_str(),
                ),
                _ => self.stay(),
            },
            SendPhase::Done => self.stay(),
            SendPhase::Failed => self.stay(),
        }
    }
}

// ---------------------------------------------------------------------------
// Receiver
// ---------------------------------------------------------------------------

/// Where a receiver stands.
#[derive(Debug, Clone, Copy, PartialEq, Eq, Structural)]
pub enum ReceivePhase {
    /// The start signal was sent this many times.
    Start { attempts: u32 },
    /// Reading the header block behind this byte.
    HeaderBody { header: u8 },
    /// Waiting for the next data block.
    Header,
    /// Reading the data block behind this byte.
    Body { header: u8 },
    /// The end of the transmission was announced once.
    SecondEot,
    /// The file is complete; the block that ends the batch may follow.
    Close,
    /// Reading the block that ends the batch.
    CloseBody { header: u8 },
    /// The transfer is complete.
    Done,
    /// The transfer was given up.
    Failed,
}

/// A YMODEM receiver.
pub struct Receiver {
    name: String,
    expected_size: Option<usize>,
    received: Vec<u8>,
    expected_block: u8,
    phase: ReceivePhase,
}

/// A YMODEM receiver, as a value of the model.
#[verifier::ext_equal]
pub struct ReceiverView {
    pub name: Seq<char>,
    pub expected_size: Option<usize>,
    pub received: Seq<u8>,
    pub expected_block: u8,
    pub phase: ReceivePhase,
}

impl View for Receiver {
    type V = ReceiverView;

    closed spec fn view(&self) -> ReceiverView {
        ReceiverView {
            name: self.name@,
            expected_size: self.expected_size,
            received: self.received@,
            expected_block: self.expected_block,
            phase: self.phase,
        }
    }
}

/// The receiver before anything has happened.
pub open spec fn receiver_start() -> ReceiverView {
    ReceiverView {
        name: Seq::empty(),
        expected_size: None,
        received: Seq::empty(),
        expected_block: 1,
        phase: ReceivePhase::Start { attempts: 1 },
    }
}

/// Bytes behind the header byte of a block.
pub open spec fn body_len(header: u8) -> int {
    xmodem::body_len(header, true)
}

/// The received bytes without what lies behind the end of the file.
pub open spec fn trimmed_file(received: Seq<u8>, size: Option<usize>) -> Seq<u8> {
    match size {
        Some(n) => if n < received.len() {
            received.take(n as int)
        } else {
            received
        },
        None => modem::unpadded(received),
    }
}

impl ReceiverView {
    /// The start signal was sent at least once and not too often.
    pub open spec fn wf(self) -> bool {
        match self.phase {
            ReceivePhase::Start { attempts } => 1 <= attempts <= MAX_RETRIES,
            _ => true,
        }
    }

    /// The wait that belongs to the phase.
    pub open spec fn pending(self) -> NextView {
        match self.phase {
            ReceivePhase::Start { .. } => NextView::ReadByte { timeout_ms: START_REPLY_MS },
            ReceivePhase::HeaderBody { header }
            | ReceivePhase::Body { header }
            | ReceivePhase::CloseBody { header } => NextView::ReadExact(body_len(header)),
            ReceivePhase::Header | ReceivePhase::SecondEot => usual_wait(),
            ReceivePhase::Close => NextView::ReadByte { timeout_ms: CLOSE_MS },
            ReceivePhase::Done => NextView::Done,
            ReceivePhase::Failed => NextView::Failed("YMODEM transfer has ended"@),
        }
    }

    /// The same receiver in another phase.
    pub open spec fn to(self, phase: ReceivePhase) -> ReceiverView {
        ReceiverView { phase, ..self }
    }

    /// Go to another phase, writing the given bytes.
    pub open spec fn go(self, phase: ReceivePhase, bytes: Seq<u8>) -> (ReceiverView, ActionView) {
        (self.to(phase), modem::send_then(bytes, self.to(phase).pending()))
    }

    /// Stay and wait on.
    pub open spec fn stay(self) -> (ReceiverView, ActionView) {
        (self, modem::wait(self.pending()))
    }

    /// Give up with the given reason.
    pub open spec fn give_up(self, reason: Seq<char>) -> (ReceiverView, ActionView) {
        (self.to(ReceivePhase::Failed), modem::fail(reason))
    }

    /// What the receiver does when the expected byte does not come.
    pub open spec fn no_byte(self, event: EventView) -> (ReceiverView, ActionView) {
        match event {
            EventView::Timeout => self.give_up("Timeout reading byte"@),
            EventView::ReadFailed(e) => self.give_up("I/O error reading byte: "@ + e),
            _ => self.stay(),
        }
    }

    /// Send the start signal once more, or give up after the last time.
    pub open spec fn ask_again(self, attempts: u32) -> (ReceiverView, ActionView) {
        if attempts < MAX_RETRIES {
            self.go(ReceivePhase::Start { attempts: (attempts + 1) as u32 }, seq![CRC_C])
        } else {
            self.give_up("YMODEM timeout waiting for Block 0 header"@)
        }
    }

    /// Take in the header block.
    pub open spec fn take_header(self, header: u8, body: Seq<u8>) -> (ReceiverView, ActionView) {
        let payload = xmodem::body_block(header, body);
        if header_name(payload).len() == 0 {
            self.go(ReceivePhase::Done, seq![ACK])
        } else {
            ReceiverView {
                name: header_name(payload),
                expected_size: match header_size(payload) {
                    Some(n) => Some(n as usize),
                    None => None,
                },
                ..self
            }.go(ReceivePhase::Header, seq![ACK, CRC_C])
        }
    }

    /// Take in a data block.
    ///
    /// A block that is damaged is asked for again; one that is sound and not
    /// the expected one is acknowledged and dropped.
    pub open spec fn take_block(self, header: u8, body: Seq<u8>) -> (ReceiverView, ActionView) {
        let block = xmodem::body_block(header, body);
        if body[1] != !body[0] || body.skip(2int + block.len()) != xmodem::crc_bytes(
            modem::crc16(block),
        ) {
            self.go(ReceivePhase::Header, seq![NAK])
        } else if body[0] == self.expected_block {
            let received = self.received + block;
            let next = ReceiverView {
                received,
                expected_block: self.expected_block.wrapping_add(1),
                ..self
            }.go(ReceivePhase::Header, seq![ACK]);
            (
                next.0,
                ActionView {
                    progress: Some(
                        Progress {
                            done: received.len() as usize,
                            total: Some(
                                match self.expected_size {
                                    Some(n) => n,
                                    None => 0,
                                },
                            ),
                        },
                    ),
                    ..next.1
                },
            )
        } else {
            self.go(ReceivePhase::Header, seq![ACK])
        }
    }

    /// The file is complete.
    pub open spec fn complete(self, bytes: Seq<u8>) -> (ReceiverView, ActionView) {
        ReceiverView {
            received: trimmed_file(self.received, self.expected_size),
            ..self
        }.go(ReceivePhase::Close, bytes)
    }

    /// What the receiver does on an event.
    pub open spec fn step(self, event: EventView) -> (ReceiverView, ActionView) {
        match self.phase {
            ReceivePhase::Start { attempts } => match event {
                EventView::Byte(b) => if b == SOH || b == STX {
                    self.go(ReceivePhase::HeaderBody { header: b }, Seq::empty())
                } else {
                    self.ask_again(attempts)
                },
                EventView::Timeout | EventView::ReadFailed(_) => self.ask_again(attempts),
                _ => self.stay(),
            },
            ReceivePhase::HeaderBody { header } => match event {
                EventView::Bytes(body) => if body.len() == body_len(header) {
                    self.take_header(header, body)
                } else {
                    self.stay()
                },
                EventView::ReadFailed(e) => self.give_up("YMODEM header read error: "@ + e),
                _ => self.stay(),
            },
            ReceivePhase::Header => match event {
                EventView::Byte(b) => if b == EOT {
                    self.go(ReceivePhase::SecondEot, seq![NAK])
                } else if b == SOH || b == STX {
                    self.go(ReceivePhase::Body { header: b }, Seq::empty())
                } else {
                    self.stay()
                },
                _ => self.no_byte(event),
            },
            ReceivePhase::Body { header } => match event {
                EventView::Bytes(body) => if body.len() == body_len(header) {
                    self.take_block(header, body)
                } else {
                    self.stay()
                },
                EventView::ReadFailed(e) => self.give_up("YMODEM read error: "@ + e),
                _ => self.stay(),
            },
            ReceivePhase::SecondEot => match event {
                EventView::Byte(b) => if b == EOT {
                    self.complete(seq![ACK, CRC_C])
                } else {
                    self.complete(Seq::empty())
                },
                _ => self.no_byte(event),
            },
            ReceivePhase::Close => match event {
                EventView::Byte(b) => if b == SOH || b == STX {
                    self.go(ReceivePhase::CloseBody { header: b }, Seq::empty())
                } else {
                    self.go(ReceivePhase::Done, Seq::empty())
                },
                EventView::Timeout | EventView::ReadFailed(_) => self.go(
                    ReceivePhase::Done,
                    Seq::empty(),
                ),
                _ => self.stay(),
            },
            ReceivePhase::CloseBody { .. } => match event {
                EventView::Bytes(_) | EventView::ReadFailed(_) => self.go(
                    ReceivePhase::Done,
                    seq![ACK],
                ),
                _ => self.stay(),
            },
            ReceivePhase::Done | ReceivePhase::Failed => self.stay(),
        }
    }
}

fn two_bytes(a: u8, b: u8) -> (r: Vec<u8>)
    ensures
        r@ == seq![a, b],
{
    let mut v = one_byte(a);
    v.push(b);
    assert(v@ =~= seq![a, b]);
    v
}

impl Receiver {
    /// A receiver, and its first action: the start signal.
    pub fn new() -> (r: (Receiver, Action))
        ensures
            r.0@ == receiver_start(),
            r.0@.wf(),
            r.1@ == modem::send_then(
                seq![CRC_C],
                NextView::ReadByte { timeout_ms: START_REPLY_MS },
            ),
    {
        let s = Receiver {
            name: String::new(),
            expected_size: None,
            received: Vec::new(),
            expected_block: 1,
            phase: ReceivePhase::Start { attempts: 1 },
        };
        (s, sending(one_byte(CRC_C), Next::ReadByte { timeout_ms: START_REPLY_MS }))
    }

    /// The file name and the data that arrived.
    pub fn into_file(self) -> (r: (String, Vec<u8>))
        ensures
            r.0@ == self@.name,
            r.1@ == self@.received,
    {
        (self.name, self.received)
    }

    fn body_len(header: u8) -> (r: usize)
        ensures
            r == body_len(header),
    {
        if header == STX {
            1028
        } else {
            132
        }
    }

    fn pending(&self) -> (r: Next)
        ensures
            r@ == self@.pending(),
    {
        match self.phase {
            ReceivePhase::Start { .. } => Next::ReadByte { timeout_ms: START_REPLY_MS },
            ReceivePhase::HeaderBody { header } => Next::ReadExact(Self::body_len(header)),
            ReceivePhase::Body { header } => Next::ReadExact(Self::body_len(header)),
            ReceivePhase::CloseBody { header } => Next::ReadExact(Self::body_len(header)),
            ReceivePhase::Header => Next::ReadByte { timeout_ms: TIMEOUT_MS },
            ReceivePhase::SecondEot => Next::ReadByte { timeout_ms: TIMEOUT_MS },
            ReceivePhase::Close => Next::ReadByte { timeout_ms: CLOSE_MS },
            ReceivePhase::Done => Next::Done,
            ReceivePhase::Failed => Next::Failed("YMODEM transfer has ended".to_owned()),
        }
    }

    fn go(&mut self, phase: ReceivePhase, bytes: Vec<u8>) -> (r: Action)
        ensures
            (final(self)@, r@) == old(self)@.go(phase, bytes@),
    {
        self.phase = phase;
        sending(bytes, self.pending())
    }

    fn stay(&self) -> (r: Action)
        ensures
            (self@, r@) == self@.stay(),
    {
        waiting(self.pending())
    }

    fn give_up(&mut self, prefix: &str, detail: &str) -> (r: Action)
        ensures
            (final(self)@, r@) == old(self)@.give_up(prefix@ + detail@),
    {
        self.phase = ReceivePhase::Failed;
        failing(prefix, detail)
    }

    fn stop(&mut self, reason: &str) -> (r: Action)
        ensures
            (final(self)@, r@) == old(self)@.give_up(reason@),
    {
        self.phase = ReceivePhase::Failed;
        failing_with(reason)
    }

    fn no_byte(&mut self, event: Event) -> (r: Action)
        ensures
            (final(self)@, r@) == old(self)@.no_byte(event@),
    {
        match event {
            Event::Timeout => self.stop("Timeout reading byte"),
            Event::ReadFailed(e) => self.give_up("I/O error reading byte: ", e.as_str()),
            _ => self.stay(),
        }
    }

    fn ask_again(&mut self, attempts: u32) -> (r: Action)
        requires
            1 <= attempts,
        ensures
            (final(self)@, r@) == old(self)@.ask_again(attempts),
            final(self)@.wf(),
    {
        if attempts < MAX_RETRIES {
            self.go(ReceivePhase::Start { attempts: attempts + 1 }, one_byte(CRC_C))
        } else {
            self.stop("YMODEM timeout waiting for Block 0 header")
        }
    }

    fn take_header(&mut self, header: u8, body: Vec<u8>) -> (r: Action)
        requires
            body@.len() == body_len(header),
        ensures
            (final(self)@, r@) == old(self)@.take_header(header, body@),
            final(self)@.wf(),
    {
        let size = Self::body_len(header) - 4;
        let payload = vstd::slice::slice_subrange(body.as_slice(), 2, 2 + size);
        assert(payload@ == xmodem::body_block(header, body@));
        let (name, expected) = parse_header(payload);
        if name.as_str().is_empty() {
            self.go(ReceivePhase::Done, one_byte(ACK))
        } else {
            self.name = name;
            self.expected_size = expected;
            self.go(ReceivePhase::Header, two_bytes(ACK, CRC_C))
        }
    }

    fn take_block(&mut self, header: u8, body: Vec<u8>) -> (r: Action)
        requires
            body@.len() == body_len(header),
        ensures
            (final(self)@, r@) == old(self)@.take_block(header, body@),
            final(self)@.wf(),
    {
        let size = Self::body_len(header) - 4;
        let blk = body[0];
        let block = vstd::slice::slice_subrange(body.as_slice(), 2, 2 + size);
        assert(block@ == xmodem::body_block(header, body@));
        let hi = body[2 + size];
        let lo = body[3 + size];
        let received: u16 = ((hi as u16) << 8) | (lo as u16);
        let crc = crc16_ccitt(block);
        proof {
            xmodem::lemma_crc_bytes(crc, hi, lo);
            let tail = body@.skip(2int + block@.len());
            assert(tail =~= seq![hi, lo]);
            if tail == xmodem::crc_bytes(crc) {
                assert(tail[0] == hi && tail[1] == lo);
            }
        }
        if body[1] != !blk || crc != received {
            return self.go(ReceivePhase::Header, one_byte(NAK));
        }
        if blk == self.expected_block {
            self.received.extend_from_slice(block);
            assert(self.received@ =~= old(self)@.received + block@);
            self.expected_block = self.expected_block.wrapping_add(1);
            let total: usize = match self.expected_size {
                Some(n) => n,
                None => 0,
            };
            let done = self.received.len();
            let mut action = self.go(ReceivePhase::Header, one_byte(ACK));
            action.progress = Some(Progress { done, total: Some(total) });
            action
        } else {
            self.go(ReceivePhase::Header, one_byte(ACK))
        }
    }

    fn complete(&mut self, bytes: Vec<u8>) -> (r: Action)
        ensures
            (final(self)@, r@) == old(self)@.complete(bytes@),
            final(self)@.wf(),
    {
        match self.expected_size {
            Some(n) => {
                self.received.truncate(n);
            },
            None => {
                trim_padding(&mut self.received);
            },
        }
        self.go(ReceivePhase::Close, bytes)
    }

    /// Take in an event and say what to do next.
    pub fn step(&mut self, event: Event) -> (r: Action)
        requires
            old(self)@.wf(),
        ensures
            (final(self)@, r@) == old(self)@.step(event@),
            final(self)@.wf(),
    {
        match self.phase {
            ReceivePhase::Start { attempts } => match event {
                Event::Byte(b) => {
                    if b == SOH || b == STX {
                        self.go(ReceivePhase::HeaderBody { header: b }, Vec::new())
                    } else {
                        self.ask_again(attempts)
                    }
                },
                Event::Timeout => self.ask_again(attempts),
                Event::ReadFailed(_) => self.ask_again(attempts),
                _ => self.stay(),
            },
            ReceivePhase::HeaderBody { header } => match event {
                Event::Bytes(body) => {
                    if body.len() == Self::body_len(header) {
                        self.take_header(header, body)
                    } else {
                        self.stay()
                    }
                },
                Event::ReadFailed(e) => self.give_up("YMODEM header read error: ", e.as_str()),
                _ => self.stay(),
            },
            ReceivePhase::Header => match event {
                Event::Byte(b) => {
                    if b == EOT {
                        self.go(ReceivePhase::SecondEot, one_byte(NAK))
                    } else if b == SOH || b == STX {
                        self.go(ReceivePhase::Body { header: b }, Vec::new())
                    } else {
                        self.stay()
                    }
                },
                _ => self.no_byte(event),
            },
            ReceivePhase::Body { header } => match event {
                Event::Bytes(body) => {
                    if body.len() == Self::body_len(header) {
                        self.take_block(header, body)
                    } else {
                        self.stay()
                    }
                },
                Event::ReadFailed(e) => self.give_up("YMODEM read error: ", e.as_str()),
                _ => self.stay(),
            },
            ReceivePhase::SecondEot => match event {
                Event::Byte(b) => {
                    if b == EOT {
                        self.complete(two_bytes(ACK, CRC_C))
                    } else {
                        self.complete(Vec::new())
                    }
                },
                _ => self.no_byte(event),
            },
            ReceivePhase::Close => match event {
                Event::Byte(b) => {
                    if b == SOH || b == STX {
                        self.go(ReceivePhase::CloseBody { header: b }, Vec::new())
                    } else {
                        self.go(ReceivePhase::Done, Vec::new())
                    }
                },
                Event::Timeout => self.go(ReceivePhase::Done, Vec::new()),
                Event::ReadFailed(_) => self.go(ReceivePhase::Done, Vec::new()),
                _ => self.stay(),
            },
            ReceivePhase::CloseBody { .. } => match event {
                Event::Bytes(_) => self.go(ReceivePhase::Done, one_byte(ACK)),
                Event::ReadFailed(_) => self.go(ReceivePhase::Done, one_byte(ACK)),
                _ => self.stay(),
            },
            ReceivePhase::Done => self.stay(),
            ReceivePhase::Failed => self.stay(),
        }
    }
}

// ---------------------------------------------------------------------------
// A whole transfer
// ---------------------------------------------------------------------------

proof fn lemma_first_end(s: Seq<u8>, n: int, or_space: bool)
    requires
        0 <= n <= s.len(),
        forall|i: int| 0 <= i < n ==> #[trigger] s[i] != 0 && !(or_space && s[i] == 0x20),
        n == s.len() || s[n] == 0 || (or_space && s[n] == 0x20),
    ensures
        first_end(s, or_space) == (if n == s.len() {
            None
        } else {
            Some(n)
        }),
    decreases n,
{
    if n > 0 {
        assert(s[0] != 0);
        lemma_first_end(s.skip(1), n - 1, or_space);
    } else if s.len() > 0 {
        assert(s[0] == 0 || (or_space && s[0] == 0x20));
    }
}

proof fn lemma_digit_bytes(n: nat, b: u8)
    requires
        b == 0 || b == 0x20,
    ensures
        forall|i: int|
            0 <= i < vstd::utf8::encode_utf8(text::dec_nat(n)).len()
                ==> #[trigger] vstd::utf8::encode_utf8(text::dec_nat(n))[i] != b,
{
    let d = text::dec_nat(n);
    text::lemma_dec_nat(n);
    assert forall|i: int| 0 <= i < d.len() implies #[trigger] d[i] != b as char by {
        assert(text::is_digit(d[i]));
    }
    text::lemma_ascii_byte_in_utf8(d, b);
}

/// Reading a header block gives back the name that it was built with, and the
/// size too unless the text fills the block to its last byte.
pub proof fn header_reads_back(name: Seq<char>, size: nat)
    requires
        header_fits(name, size),
        size <= usize::MAX,
        name.len() > 0,
        forall|i: int| 0 <= i < name.len() ==> #[trigger] name[i] != '\0',
    ensures
        header_name(header_payload(name, size)) == name,
        header_size(header_payload(name, size)) == (if header_text(name, size).len()
            < HEADER_LEN {
            Some(size)
        } else {
            None
        }),
{
    let payload = header_payload(name, size);
    let a = vstd::utf8::encode_utf8(name);
    let d = vstd::utf8::encode_utf8(text::dec_nat(size));
    let n = a.len() as int;
    assert(0u8 as char == '\0');
    text::lemma_ascii_byte_in_utf8(name, 0);
    assert forall|i: int| 0 <= i < n implies #[trigger] payload[i] != 0 by {
        assert(payload[i] == a[i]);
    }
    assert(payload[n] == 0);
    lemma_first_end(payload, n, false);
    assert(payload.take(n) =~= a);
    text::lemma_utf8_reads_back(name);
    let rest = payload.skip(n + 1);
    lemma_digit_bytes(size, 0);
    lemma_digit_bytes(size, 0x20);
    let m = d.len() as int;
    assert forall|i: int| 0 <= i < m implies #[trigger] rest[i] != 0 && rest[i] != 0x20 by {
        assert(rest[i] == d[i]);
    }
    if header_text(name, size).len() < HEADER_LEN {
        assert(rest[m] == 0);
    } else {
        assert(m == rest.len());
    }
    lemma_first_end(rest, m, true);
    assert(rest.take(m) =~= d);
    text::lemma_utf8_reads_back(text::dec_nat(size));
    text::decimal_reads_back(size, usize::MAX as nat);
}

/// Carry the bytes of one write to a receiver: the first byte, and the rest of
/// them where the receiver then asks for that many.
pub open spec fn deliver(rx: ReceiverView, bytes: Seq<u8>) -> (ReceiverView, ActionView) {
    let (opened, action) = rx.step(EventView::Byte(bytes[0]));
    if action.next == NextView::ReadExact(bytes.len() - 1) {
        opened.step(EventView::Bytes(bytes.skip(1)))
    } else {
        (opened, action)
    }
}

/// Carry the answer of a receiver to a sender, byte by byte.
pub open spec fn answer_all(tx: SenderView, answer: Seq<u8>) -> (SenderView, ActionView)
    decreases answer.len(),
{
    if answer.len() == 0 {
        tx.stay()
    } else if answer.len() == 1 {
        tx.step(EventView::Byte(answer[0]))
    } else {
        answer_all(tx.step(EventView::Byte(answer[0])).0, answer.skip(1))
    }
}

/// Carry bytes and answers back and forth until both sides are done, for at
/// most `rounds` rounds. The result is the receiver at the end.
pub open spec fn exchange(
    tx: SenderView,
    rx: ReceiverView,
    bytes: Seq<u8>,
    rounds: nat,
) -> Option<ReceiverView>
    decreases rounds,
{
    if rounds == 0 || bytes.len() == 0 {
        None
    } else {
        let (rx2, answer) = deliver(rx, bytes);
        let (tx2, action) = answer_all(tx, answer.send);
        if tx2.phase is Done && rx2.phase is Done {
            Some(rx2)
        } else {
            exchange(tx2, rx2, action.send, (rounds - 1) as nat)
        }
    }
}

proof fn lemma_answer_two(tx: SenderView, a: u8, b: u8)
    ensures
        answer_all(tx, seq![a, b]) == tx.step(EventView::Byte(a)).0.step(EventView::Byte(b)),
{
    assert(seq![a, b].skip(1) =~= seq![b]);
    reveal_with_fuel(answer_all, 2);
}

proof fn lemma_close(name: Seq<char>, data: Seq<u8>, rx: ReceiverView, rounds: nat)
    requires
        rx.phase is Header,
        trimmed_file(rx.received, rx.expected_size) == data,
        rx.name == name,
        rounds >= 3,
    ensures
        ({
            let tx = sender_start(name, data).to(SendPhase::FirstEot);
            let end = exchange(tx, rx, seq![EOT], rounds);
            end is Some && end->0.received == data && end->0.name == name
        }),
{
    reveal_with_fuel(exchange, 4);
    reveal_with_fuel(answer_all, 2);
    let tx = sender_start(name, data).to(SendPhase::FirstEot);
    let (rx2, a2) = deliver(rx, seq![EOT]);
    assert(a2.send =~= seq![NAK]);
    let (tx2, b2) = answer_all(tx, a2.send);
    assert(tx2 == tx.to(SendPhase::SecondEot));
    assert(b2.send =~= seq![EOT]);
    let (rx3, a3) = deliver(rx2, b2.send);
    assert(a3.send =~= seq![ACK, CRC_C]);
    lemma_answer_two(tx2, ACK, CRC_C);
    let (tx3, b3) = answer_all(tx2, a3.send);
    assert(tx3 == tx.to(SendPhase::NullAck));
    assert(b3.send == null_packet());
    assert(zeros(HEADER_LEN as nat).len() == 128);
    xmodem::packet_is_accepted(false, 0, zeros(HEADER_LEN as nat), true);
    let (rx4, a4) = deliver(rx3, b3.send);
    assert(rx4.phase is Done);
    assert(a4.send =~= seq![ACK]);
    assert(rx4.received == data);
}

proof fn lemma_exchange(
    name: Seq<char>,
    data: Seq<u8>,
    offset: int,
    number: u8,
    rx: ReceiverView,
    rounds: nat,
)
    requires
        data.len() <= usize::MAX,
        0 <= offset < data.len() || (offset == 0 && data.len() == 0),
        rx.expected_block == number,
        rx.received == data.take(offset),
        rx.phase is Header,
        rx.name == name,
        rx.expected_size == Some(data.len() as usize) || (rx.expected_size is None && (data.len()
            == 0 || data.last() != PAD)),
        rounds >= data.len() - offset + 5,
    ensures
        ({
            let (tx, action) = sender_start(name, data).offer(offset, number, 0);
            let end = exchange(tx, rx, action.send, rounds);
            end is Some && end->0.received == data && end->0.name == name
        }),
    decreases rounds,
{
    let (tx, action) = sender_start(name, data).offer(offset, number, 0);
    let bytes = action.send;
    let end = xmodem::chunk_end(data.len() as int, offset, 1024);
    let block = xmodem::block_at(data, offset, 1024);
    assert(block.len() == 1024);
    xmodem::packet_is_accepted(true, number, block, true);
    let opened = rx.to(ReceivePhase::Body { header: STX });
    assert(rx.step(EventView::Byte(bytes[0])).0 == opened);
    let (rx2, answer) = deliver(rx, bytes);
    assert((rx2, answer) == opened.take_block(STX, bytes.skip(1)));
    assert(bytes.skip(1)[1] == !bytes.skip(1)[0]);
    assert(bytes.skip(1).skip(1026) =~= xmodem::check_bytes(block, true));
    assert(rx2.received == rx.received + block);
    assert(answer.send =~= seq![ACK]);
    reveal_with_fuel(answer_all, 2);
    let (tx2, action2) = answer_all(tx, answer.send);
    assert(exchange(tx, rx, bytes, rounds) == exchange(
        tx2,
        rx2,
        action2.send,
        (rounds - 1) as nat,
    ));
    if end < data.len() {
        assert(rx2.received =~= data.take(end));
        lemma_exchange(name, data, end, number.wrapping_add(1), rx2, (rounds - 1) as nat);
        let (tx3, action3) = sender_start(name, data).offer(end, number.wrapping_add(1), 0);
        assert(tx2 =~= tx3);
        assert(action2.send == action3.send);
    } else {
        let n = (1024 - (end - offset)) as nat;
        assert(rx2.received =~= data + modem::padding(n));
        if rx.expected_size is None {
            modem::lemma_unpadded_padding(data, n);
        } else {
            assert(data.len() as usize == data.len());
            assert((data + modem::padding(n)).take(data.len() as int) =~= data);
        }
        assert(trimmed_file(rx2.received, rx2.expected_size) =~= data);
        assert(action2.send =~= seq![EOT]);
        assert(tx2 =~= sender_start(name, data).to(SendPhase::FirstEot));
        lemma_close(name, data, rx2, (rounds - 1) as nat);
    }
}

/// Over a line that loses nothing, a receiver ends up with exactly the name and
/// the data that the sender was given.
///
/// The name is not empty, holds no zero character and fits into the header. A
/// header that is filled to its last byte leaves no room for the mark behind
/// the size; the data then must not end with the padding byte.
pub proof fn transfer_delivers_the_file(name: Seq<char>, data: Seq<u8>)
    requires
        header_fits(name, data.len()),
        data.len() <= usize::MAX,
        name.len() > 0,
        forall|i: int| 0 <= i < name.len() ==> #[trigger] name[i] != '\0',
        header_text(name, data.len()).len() < HEADER_LEN || data.len() == 0 || data.last() != PAD,
    ensures
        ({
            let (tx, action) = sender_start(name, data).step(EventView::Byte(CRC_C));
            let end = exchange(tx, receiver_start(), action.send, data.len() + 6);
            end is Some && end->0.received == data && end->0.name == name
        }),
{
    let (tx, action) = sender_start(name, data).step(EventView::Byte(CRC_C));
    let bytes = action.send;
    let payload = header_payload(name, data.len());
    assert(payload.len() == 128);
    xmodem::packet_is_accepted(false, 0, payload, true);
    header_reads_back(name, data.len());
    let rx = receiver_start();
    let opened = rx.to(ReceivePhase::HeaderBody { header: SOH });
    assert(rx.step(EventView::Byte(bytes[0])).0 == opened);
    let (rx2, answer) = deliver(rx, bytes);
    assert((rx2, answer) == opened.take_header(SOH, bytes.skip(1)));
    assert(answer.send =~= seq![ACK, CRC_C]);
    lemma_answer_two(tx, ACK, CRC_C);
    let (tx2, action2) = answer_all(tx, answer.send);
    let (tx3, action3) = sender_start(name, data).offer(0, 1, 0);
    assert(tx2 =~= tx3);
    assert(action2.send == action3.send);
    assert(data.take(0) =~= Seq::<u8>::empty());
    assert(rx2.received =~= data.take(0));
    lemma_exchange(name, data, 0, 1, rx2, (data.len() + 5) as nat);
}

/// A damaged or repeated block leaves what was received unchanged.
pub proof fn only_the_expected_block_is_taken(rx: ReceiverView, header: u8, body: Seq<u8>)
    ensures
        body[0] != rx.expected_block ==> rx.take_block(header, body).0.received == rx.received,
        body[1] != !body[0] ==> rx.take_block(header, body).0.received == rx.received,
{
}

} // verus!
