//! Modem file transfer protocols (XMODEM, YMODEM, ZMODEM).
//!
//! Each protocol is a pair of state machines, a sender and a receiver. A
//! machine is told what happened on the line (an [`Event`]) and answers with
//! what to do next (an [`Action`]). It never touches the line itself, so what
//! it does on every sequence of events is stated and proved here, and the code
//! that owns the port only carries bytes back and forth.
use vstd::prelude::*;
use vstd::string::*;

pub mod xmodem;
pub mod ymodem;
pub mod zmodem;

verus! {

/// Start of a 128-byte block.
pub const SOH: u8 = 0x01;
/// Start of a 1024-byte block.
pub const STX: u8 = 0x02;
/// End of transmission.
pub const EOT: u8 = 0x04;
/// Acknowledge.
pub const ACK: u8 = 0x06;
/// Negative acknowledge.
pub const NAK: u8 = 0x15;
/// Cancel.
pub const CAN: u8 = 0x18;
/// Receiver request for CRC mode.
pub const CRC_C: u8 = 0x43;
/// Block padding byte.
pub const PAD: u8 = 0x1A;

/// Retries before a block is considered lost.
pub const MAX_RETRIES: u32 = 10;
/// Per-byte timeout during a transfer, in milliseconds.
pub const TIMEOUT_MS: u64 = 3000;

// ---------------------------------------------------------------------------
// Protocols
// ---------------------------------------------------------------------------

/// Supported file transfer protocols.
#[derive(Debug, Clone, Copy, PartialEq, Eq, Structural)]
pub enum FileTransferProtocol {
    /// Standard XMODEM (128-byte blocks, 8-bit checksum)
    Xmodem,
    /// XMODEM with 16-bit CRC (128-byte blocks)
    XmodemCrc,
    /// XMODEM-1K (1024-byte blocks, 16-bit CRC)
    Xmodem1k,
    /// YMODEM-Batch (Block 0 file metadata + 1024-byte blocks + 16-bit CRC)
    Ymodem,
    /// ZMODEM (Streaming with sliding window, 32-bit CRC, ZDLE escaping)
    Zmodem,
}

impl FileTransferProtocol {
    /// Whether data goes out in blocks of 1024 bytes.
    pub open spec fn sends_1k(self) -> bool {
        self is Xmodem1k || self is Ymodem
    }

    /// Whether blocks are checked by a CRC.
    pub open spec fn wants_crc(self) -> bool {
        !(self is Xmodem)
    }

    /// The file name used when a protocol carries no metadata.
    pub open spec fn spec_fallback(self) -> Seq<char> {
        match self {
            FileTransferProtocol::Xmodem | FileTransferProtocol::XmodemCrc => "xmodem_recv.bin"@,
            FileTransferProtocol::Xmodem1k => "xmodem1k_recv.bin"@,
            FileTransferProtocol::Ymodem => "ymodem_recv.bin"@,
            FileTransferProtocol::Zmodem => "zmodem_recv.bin"@,
        }
    }

    /// Default file name used when a protocol carries no metadata.
    pub fn fallback_filename(self) -> (r: &'static str)
        ensures
            r@ == self.spec_fallback(),
    {
        match self {
            FileTransferProtocol::Xmodem => "xmodem_recv.bin",
            FileTransferProtocol::XmodemCrc => "xmodem_recv.bin",
            FileTransferProtocol::Xmodem1k => "xmodem1k_recv.bin",
            FileTransferProtocol::Ymodem => "ymodem_recv.bin",
            FileTransferProtocol::Zmodem => "zmodem_recv.bin",
        }
    }

    /// Whether the protocol transmits 1024-byte blocks.
    pub fn uses_1k_blocks(self) -> (r: bool)
        ensures
            r == self.sends_1k(),
    {
        matches!(self, FileTransferProtocol::Xmodem1k | FileTransferProtocol::Ymodem)
    }

    /// Whether the receiver should request CRC framing.
    pub fn uses_crc(self) -> (r: bool)
        ensures
            r == self.wants_crc(),
    {
        !matches!(self, FileTransferProtocol::Xmodem)
    }
}

/// Progress report during file transfer.
#[derive(Debug, Clone, PartialEq, Eq)]
pub struct TransferProgress {
    pub bytes_transferred: u64,
    pub total_bytes: Option<u64>,
    pub block_number: u32,
    pub retries: u32,
    pub message: String,
}

// ---------------------------------------------------------------------------
// Checksums
// ---------------------------------------------------------------------------

/// One step of the CCITT shift register: shift left, and reduce by the
/// polynomial 0x1021 when a bit falls out.
pub open spec fn crc16_shift(crc: u16) -> u16 {
    if crc & 0x8000 != 0 {
        (crc << 1) ^ 0x1021
    } else {
        crc << 1
    }
}

/// `n` steps of the CCITT shift register.
pub open spec fn crc16_shifts(crc: u16, n: nat) -> u16
    decreases n,
{
    if n == 0 {
        crc
    } else {
        crc16_shift(crc16_shifts(crc, (n - 1) as nat))
    }
}

/// The 16-bit CCITT CRC (polynomial 0x1021, initial value 0).
pub open spec fn crc16(data: Seq<u8>) -> u16
    decreases data.len(),
{
    if data.len() == 0 {
        0
    } else {
        crc16_shifts(crc16(data.drop_last()) ^ ((data.last() as u16) << 8), 8)
    }
}

/// Calculate 16-bit CCITT CRC (polynomial 0x1021, initial value 0x0000).
pub fn crc16_ccitt(data: &[u8]) -> (r: u16)
    ensures
        r == crc16(data@),
{
    let mut crc: u16 = 0;
    let mut i: usize = 0;
    while i < data.len()
        invariant
            i <= data.len(),
            crc == crc16(data@.take(i as int)),
        decreases data.len() - i,
    {
        proof {
            assert(data@.take(i + 1).drop_last() =~= data@.take(i as int));
            assert(data@.take(i + 1).last() == data@[i as int]);
        }
        crc = crc ^ ((data[i] as u16) << 8);
        let ghost start = crc;
        let mut bit: u32 = 0;
        while bit < 8
            invariant
                bit <= 8,
                crc == crc16_shifts(start, bit as nat),
            decreases 8 - bit,
        {
            if crc & 0x8000 != 0 {
                crc = (crc << 1) ^ 0x1021;
            } else {
                crc = crc << 1;
            }
            bit = bit + 1;
        }
        i = i + 1;
    }
    assert(data@.take(data@.len() as int) =~= data@);
    crc
}

/// Data that is followed by its own CRC has the CRC zero.
pub proof fn data_with_its_crc_has_crc_zero(data: Seq<u8>)
    ensures
        crc16(data + seq![(crc16(data) >> 8) as u8, (crc16(data) & 0xFF) as u8]) == 0,
{
    let crc = crc16(data);
    let hi = (crc >> 8) as u8;
    let lo = (crc & 0xFF) as u8;
    let one = data.push(hi);
    let both = data + seq![hi, lo];
    assert(one.drop_last() =~= data);
    assert(both.drop_last() =~= one);
    let rest = crc ^ ((hi as u16) << 8);
    assert(rest == crc & 0xFF && rest <= 0xFF) by (bit_vector)
        requires
            hi == (crc >> 8) as u8,
            rest == crc ^ ((hi as u16) << 8),
    ;
    lemma_plain_shifts(rest, 8);
    let last = rest << 8u16;
    assert(last ^ ((lo as u16) << 8) == 0) by (bit_vector)
        requires
            rest == crc & 0xFF,
            lo == (crc & 0xFF) as u8,
            last == rest << 8u16,
    ;
    lemma_plain_shifts(0, 8);
    assert(0u16 << 8u16 == 0) by (bit_vector);
    assert(one.last() == hi && both.last() == lo);
    assert(crc16(one) == last);
    assert(crc16(both) == crc16_shifts(last ^ ((lo as u16) << 8), 8));
}

/// As long as no bit reaches the top, the register only shifts.
proof fn lemma_plain_shifts(x: u16, n: u16)
    requires
        x <= 0xFF,
        n <= 8,
    ensures
        crc16_shifts(x, n as nat) == x << n,
    decreases n,
{
    if n == 0 {
        assert(x << 0u16 == x) by (bit_vector);
    } else {
        let m = (n - 1) as u16;
        lemma_plain_shifts(x, m);
        let y = x << m;
        assert(y & 0x8000 == 0 && y << 1u16 == x << n) by (bit_vector)
            requires
                x <= 0xFF,
                0 < n <= 8,
                m == n - 1,
                y == x << m,
        ;
    }
}

/// The sum of all bytes.
pub open spec fn byte_sum(data: Seq<u8>) -> nat
    decreases data.len(),
{
    if data.len() == 0 {
        0
    } else {
        byte_sum(data.drop_last()) + data.last() as nat
    }
}

/// The 8-bit additive checksum.
pub open spec fn sum8(data: Seq<u8>) -> u8 {
    (byte_sum(data) % 256) as u8
}

/// Calculate 8-bit additive checksum (sum modulo 256).
pub fn checksum8(data: &[u8]) -> (r: u8)
    ensures
        r == sum8(data@),
        r == byte_sum(data@) % 256,
{
    let mut sum: u8 = 0;
    let mut i: usize = 0;
    while i < data.len()
        invariant
            i <= data.len(),
            sum == byte_sum(data@.take(i as int)) % 256,
        decreases data.len() - i,
    {
        proof {
            assert(data@.take(i + 1).drop_last() =~= data@.take(i as int));
            assert(data@.take(i + 1).last() == data@[i as int]);
        }
        sum = sum.wrapping_add(data[i]);
        i = i + 1;
    }
    assert(data@.take(data@.len() as int) =~= data@);
    sum
}

/// One step of the reflected IEEE 802.3 shift register.
pub open spec fn crc32_shift(crc: u32) -> u32 {
    if crc & 1 != 0 {
        (crc >> 1) ^ 0xEDB8_8320
    } else {
        crc >> 1
    }
}

/// `n` steps of the reflected IEEE 802.3 shift register.
pub open spec fn crc32_shifts(crc: u32, n: nat) -> u32
    decreases n,
{
    if n == 0 {
        crc
    } else {
        crc32_shift(crc32_shifts(crc, (n - 1) as nat))
    }
}

/// The register of the 32-bit CRC after the given bytes.
pub open spec fn crc32_register(data: Seq<u8>) -> u32
    decreases data.len(),
{
    if data.len() == 0 {
        0xFFFF_FFFF
    } else {
        crc32_shifts(crc32_register(data.drop_last()) ^ (data.last() as u32), 8)
    }
}

/// The 32-bit CRC (polynomial 0xEDB88320, standard IEEE 802.3).
pub open spec fn spec_crc32(data: Seq<u8>) -> u32 {
    !crc32_register(data)
}

/// Calculate 32-bit CRC (polynomial 0xEDB88320, standard IEEE 802.3).
pub fn crc32(data: &[u8]) -> (r: u32)
    ensures
        r == spec_crc32(data@),
{
    let mut crc: u32 = 0xFFFF_FFFF;
    let mut i: usize = 0;
    while i < data.len()
        invariant
            i <= data.len(),
            crc == crc32_register(data@.take(i as int)),
        decreases data.len() - i,
    {
        proof {
            assert(data@.take(i + 1).drop_last() =~= data@.take(i as int));
            assert(data@.take(i + 1).last() == data@[i as int]);
        }
        crc = crc ^ (data[i] as u32);
        let ghost start = crc;
        let mut bit: u32 = 0;
        while bit < 8
            invariant
                bit <= 8,
                crc == crc32_shifts(start, bit as nat),
            decreases 8 - bit,
        {
            if crc & 1 != 0 {
                crc = (crc >> 1) ^ 0xEDB8_8320;
            } else {
                crc = crc >> 1;
            }
            bit = bit + 1;
        }
        i = i + 1;
    }
    assert(data@.take(data@.len() as int) =~= data@);
    !crc
}

/// The four bytes of a number, lowest first.
#[verifier::opaque]
pub open spec fn le_bytes(x: u32) -> Seq<u8> {
    seq![
        (x & 0xff) as u8,
        ((x >> 8) & 0xff) as u8,
        ((x >> 16) & 0xff) as u8,
        ((x >> 24) & 0xff) as u8,
    ]
}

/// The number that four bytes make up, lowest first.
#[verifier::opaque]
pub open spec fn from_le(s: Seq<u8>) -> u32 {
    (s[0] as u32) | ((s[1] as u32) << 8) | ((s[2] as u32) << 16) | ((s[3] as u32) << 24)
}

/// The four bytes of a number, lowest first.
pub fn to_le_bytes(x: u32) -> (r: Vec<u8>)
    ensures
        r@ == le_bytes(x),
{
    reveal(le_bytes);
    let mut v: Vec<u8> = Vec::new();
    v.push((x & 0xff) as u8);
    v.push(((x >> 8) & 0xff) as u8);
    v.push(((x >> 16) & 0xff) as u8);
    v.push(((x >> 24) & 0xff) as u8);
    assert(v@ =~= le_bytes(x));
    v
}

/// The number that four bytes make up, lowest first.
pub fn from_le_bytes(s: &[u8]) -> (r: u32)
    requires
        s@.len() == 4,
    ensures
        r == from_le(s@),
{
    reveal(from_le);
    (s[0] as u32) | ((s[1] as u32) << 8) | ((s[2] as u32) << 16) | ((s[3] as u32) << 24)
}

/// The bytes of a number make it up again.
pub proof fn lemma_le_bytes(x: u32)
    ensures
        le_bytes(x).len() == 4,
        from_le(le_bytes(x)) == x,
{
    reveal(le_bytes);
    reveal(from_le);
    let a = (x & 0xff) as u8;
    let b = ((x >> 8) & 0xff) as u8;
    let c = ((x >> 16) & 0xff) as u8;
    let d = ((x >> 24) & 0xff) as u8;
    assert((a as u32) | ((b as u32) << 8) | ((c as u32) << 16) | ((d as u32) << 24) == x)
        by (bit_vector)
        requires
            a == (x & 0xff) as u8,
            b == ((x >> 8) & 0xff) as u8,
            c == ((x >> 16) & 0xff) as u8,
            d == ((x >> 24) & 0xff) as u8,
    ;
}

// ---------------------------------------------------------------------------
// Events and actions
// ---------------------------------------------------------------------------

/// What happened on the line.
#[derive(Debug, Clone, PartialEq, Eq)]
pub enum Event {
    /// One byte arrived.
    Byte(u8),
    /// The requested number of bytes arrived.
    Bytes(Vec<u8>),
    /// No byte arrived within the requested time.
    Timeout,
    /// The requested overall time has passed.
    Deadline,
    /// Reading failed.
    ReadFailed(String),
    /// Writing the bytes of the last action failed.
    WriteFailed(String),
    /// Flushing the bytes of the last action failed.
    FlushFailed(String),
    /// The bytes of the last action were written, and there was nothing to
    /// wait for.
    Proceed,
}

/// What happened on the line, as a value of the model.
#[verifier::ext_equal]
pub enum EventView {
    Byte(u8),
    Bytes(Seq<u8>),
    Timeout,
    Deadline,
    ReadFailed(Seq<char>),
    WriteFailed(Seq<char>),
    FlushFailed(Seq<char>),
    Proceed,
}

impl View for Event {
    type V = EventView;

    open spec fn view(&self) -> EventView {
        match *self {
            Event::Byte(b) => EventView::Byte(b),
            Event::Bytes(b) => EventView::Bytes(b@),
            Event::Timeout => EventView::Timeout,
            Event::Deadline => EventView::Deadline,
            Event::ReadFailed(e) => EventView::ReadFailed(e@),
            Event::WriteFailed(e) => EventView::WriteFailed(e@),
            Event::FlushFailed(e) => EventView::FlushFailed(e@),
            Event::Proceed => EventView::Proceed,
        }
    }
}

/// What a machine waits for after its bytes are written.
#[derive(Debug, Clone, PartialEq, Eq)]
pub enum Next {
    /// Read one byte, and give up after the given time.
    ReadByte { timeout_ms: u64 },
    /// Read one byte, look again after the given time, and report
    /// [`Event::Deadline`] once `deadline_ms` have passed. Where `restart`
    /// holds, that time begins now.
    Poll { timeout_ms: u64, deadline_ms: u64, restart: bool },
    /// Read exactly this many bytes.
    ReadExact(usize),
    /// Read nothing and report [`Event::Proceed`].
    Proceed,
    /// The transfer is complete.
    Done,
    /// The transfer has failed, with the reason.
    Failed(String),
}

/// What a machine waits for, as a value of the model.
#[verifier::ext_equal]
pub enum NextView {
    ReadByte { timeout_ms: u64 },
    Poll { timeout_ms: u64, deadline_ms: u64, restart: bool },
    ReadExact(int),
    Proceed,
    Done,
    Failed(Seq<char>),
}

impl View for Next {
    type V = NextView;

    open spec fn view(&self) -> NextView {
        match *self {
            Next::ReadByte { timeout_ms } => NextView::ReadByte { timeout_ms },
            Next::Poll { timeout_ms, deadline_ms, restart } => NextView::Poll {
                timeout_ms,
                deadline_ms,
                restart,
            },
            Next::ReadExact(n) => NextView::ReadExact(n as int),
            Next::Proceed => NextView::Proceed,
            Next::Done => NextView::Done,
            Next::Failed(e) => NextView::Failed(e@),
        }
    }
}

/// How much of a transfer is done, and of how much where that is known.
#[derive(Debug, Clone, Copy, PartialEq, Eq, Structural)]
pub struct Progress {
    pub done: usize,
    pub total: Option<usize>,
}

/// What to do: write the bytes, report the progress, then wait.
#[derive(Debug, Clone, PartialEq, Eq)]
pub struct Action {
    /// Bytes to write and flush, if any.
    pub send: Vec<u8>,
    /// Progress to report, if there is any.
    pub progress: Option<Progress>,
    /// What to wait for.
    pub next: Next,
}

/// What to do, as a value of the model.
#[verifier::ext_equal]
pub struct ActionView {
    pub send: Seq<u8>,
    pub progress: Option<Progress>,
    pub next: NextView,
}

impl View for Action {
    type V = ActionView;

    open spec fn view(&self) -> ActionView {
        ActionView { send: self.send@, progress: self.progress, next: self.next@ }
    }
}

/// Write nothing and wait.
pub open spec fn wait(next: NextView) -> ActionView {
    ActionView { send: Seq::empty(), progress: None, next }
}

/// Write the bytes, then wait.
pub open spec fn send_then(send: Seq<u8>, next: NextView) -> ActionView {
    ActionView { send, progress: None, next }
}

/// Give up with the given reason.
pub open spec fn fail(reason: Seq<char>) -> ActionView {
    wait(NextView::Failed(reason))
}

/// An action that writes nothing.
pub fn waiting(next: Next) -> (r: Action)
    ensures
        r@ == wait(next@),
{
    let r = Action { send: Vec::new(), progress: None, next };
    assert(r@ =~= wait(next@));
    r
}

/// An action that writes the given bytes.
pub fn sending(send: Vec<u8>, next: Next) -> (r: Action)
    ensures
        r@ == send_then(send@, next@),
{
    Action { send, progress: None, next }
}

/// An action that gives up with `prefix` followed by `detail`.
pub fn failing(prefix: &str, detail: &str) -> (r: Action)
    ensures
        r@ == fail(prefix@ + detail@),
{
    waiting(Next::Failed(crate::text::concat2(prefix, detail)))
}

/// An action that gives up with the given reason.
pub fn failing_with(reason: &str) -> (r: Action)
    ensures
        r@ == fail(reason@),
{
    waiting(Next::Failed(reason.to_owned()))
}

/// A single byte as a vector.
pub fn one_byte(b: u8) -> (r: Vec<u8>)
    ensures
        r@ == seq![b],
{
    let mut v: Vec<u8> = Vec::new();
    v.push(b);
    assert(v@ =~= seq![b]);
    v
}

/// A sequence without its trailing padding bytes.
pub open spec fn unpadded(data: Seq<u8>) -> Seq<u8>
    decreases data.len(),
{
    if data.len() > 0 && data.last() == PAD {
        unpadded(data.drop_last())
    } else {
        data
    }
}

/// Remove trailing padding bytes.
pub fn trim_padding(data: &mut Vec<u8>)
    ensures
        final(data)@ == unpadded(old(data)@),
{
    while data.len() > 0 && data[data.len() - 1] == PAD
        invariant
            unpadded(data@) == unpadded(old(data)@),
        decreases data.len(),
    {
        data.pop();
    }
}

/// `n` padding bytes.
pub open spec fn padding(n: nat) -> Seq<u8> {
    Seq::new(n, |i: int| PAD)
}

/// Padding behind data that does not end with a padding byte comes off again.
pub proof fn lemma_unpadded_padding(data: Seq<u8>, n: nat)
    requires
        data.len() == 0 || data.last() != PAD,
    ensures
        unpadded(data + padding(n)) == data,
    decreases n,
{
    if n == 0 {
        assert(data + padding(0) =~= data);
    } else {
        let p = data + padding(n);
        assert(p.last() == PAD);
        assert(p.drop_last() =~= data + padding((n - 1) as nat));
        lemma_unpadded_padding(data, (n - 1) as nat);
    }
}

// ---------------------------------------------------------------------------
// One machine for every protocol
// ---------------------------------------------------------------------------

/// The sender of one of the protocols.
pub enum SendMachine {
    Xmodem(xmodem::Sender),
    Ymodem(ymodem::Sender),
    Zmodem(zmodem::Sender),
}

impl SendMachine {
    /// The machine is in a sound state.
    pub open spec fn wf(self) -> bool {
        match self {
            SendMachine::Xmodem(m) => m@.wf(),
            SendMachine::Ymodem(m) => m@.wf(),
            SendMachine::Zmodem(m) => m@.wf(),
        }
    }

    /// What the machine sends.
    pub open spec fn data(self) -> Seq<u8> {
        match self {
            SendMachine::Xmodem(m) => m@.data,
            SendMachine::Ymodem(m) => m@.data,
            SendMachine::Zmodem(m) => m@.data,
        }
    }

    /// One machine follows from another by an event with the given action.
    pub open spec fn steps(self, event: EventView, next: SendMachine, action: ActionView) -> bool {
        match (self, next) {
            (SendMachine::Xmodem(a), SendMachine::Xmodem(b)) => (b@, action) == a@.step(event),
            (SendMachine::Ymodem(a), SendMachine::Ymodem(b)) => (b@, action) == a@.step(event),
            (SendMachine::Zmodem(a), SendMachine::Zmodem(b)) => (b@, action) == a@.step(event),
            _ => false,
        }
    }

    /// Take in an event and say what to do next.
    pub fn step(self, event: Event) -> (r: (SendMachine, Action))
        requires
            self.wf(),
        ensures
            self.steps(event@, r.0, r.1@),
            r.0.wf(),
    {
        match self {
            SendMachine::Xmodem(m) => {
                let mut m = m;
                let action = m.step(event);
                (SendMachine::Xmodem(m), action)
            },
            SendMachine::Ymodem(m) => {
                let mut m = m;
                let action = m.step(event);
                (SendMachine::Ymodem(m), action)
            },
            SendMachine::Zmodem(m) => {
                let mut m = m;
                let action = m.step(event);
                (SendMachine::Zmodem(m), action)
            },
        }
    }

    /// Number of bytes in the data.
    pub fn total(&self) -> (r: usize)
        ensures
            r == self.data().len(),
    {
        match self {
            SendMachine::Xmodem(m) => m.total(),
            SendMachine::Ymodem(m) => m.total(),
            SendMachine::Zmodem(m) => m.total(),
        }
    }
}

/// Whether a machine and its first action begin to send a file.
pub open spec fn starts_sending(
    protocol: FileTransferProtocol,
    file_name: Seq<char>,
    data: Seq<u8>,
    machine: SendMachine,
    action: ActionView,
) -> bool {
    &&& match (protocol, machine) {
            (FileTransferProtocol::Ymodem, SendMachine::Ymodem(m)) => m@ == ymodem::sender_start(
                file_name,
                data,
            ),
            (FileTransferProtocol::Zmodem, SendMachine::Zmodem(m)) => m@ == zmodem::sender_start(
                file_name,
                data,
            ),
            (FileTransferProtocol::Ymodem, _) | (FileTransferProtocol::Zmodem, _) => false,
            (_, SendMachine::Xmodem(m)) => m@ == xmodem::sender_start(
                data,
                protocol is Xmodem1k,
            ),
            _ => false,
        }
    &&& action == match protocol {
            FileTransferProtocol::Zmodem => zmodem::sender_start(file_name, data).ask(
                zmodem::SendPhase::AwaitInit,
                zmodem::ZRQINIT,
                zmodem::no_flags(),
            ).1,
            _ => wait(
                NextView::Poll { timeout_ms: 500, deadline_ms: 30_000, restart: true },
            ),
        }
}

/// Send a file with the given protocol.
///
/// The choice among the protocols is made here and nowhere else. The YMODEM
/// header block has room for 128 bytes of name and size; a file that does not
/// fit cannot be sent with it.
pub fn send(protocol: FileTransferProtocol, file_name: &str, data: Vec<u8>) -> (r: (
    SendMachine,
    Action,
))
    requires
        protocol is Ymodem ==> ymodem::header_fits(file_name@, data@.len()),
    ensures
        r.0.wf(),
        starts_sending(protocol, file_name@, data@, r.0, r.1@),
{
    match protocol {
        FileTransferProtocol::Ymodem => {
            let (m, a) = ymodem::Sender::new(file_name, data);
            (SendMachine::Ymodem(m), a)
        },
        FileTransferProtocol::Zmodem => {
            let (m, a) = zmodem::Sender::new(file_name, data);
            (SendMachine::Zmodem(m), a)
        },
        _ => {
            let (m, a) = xmodem::Sender::new(data, protocol.uses_1k_blocks());
            (SendMachine::Xmodem(m), a)
        },
    }
}

/// The receiver of one of the protocols.
pub enum ReceiveMachine {
    Xmodem(xmodem::Receiver),
    Ymodem(ymodem::Receiver),
    Zmodem(zmodem::Receiver),
}

impl ReceiveMachine {
    /// The machine is in a sound state.
    pub open spec fn wf(self) -> bool {
        match self {
            ReceiveMachine::Xmodem(m) => m@.wf(),
            ReceiveMachine::Ymodem(m) => m@.wf(),
            ReceiveMachine::Zmodem(m) => m@.wf(),
        }
    }

    /// One machine follows from another by an event with the given action.
    pub open spec fn steps(
        self,
        event: EventView,
        next: ReceiveMachine,
        action: ActionView,
    ) -> bool {
        match (self, next) {
            (ReceiveMachine::Xmodem(a), ReceiveMachine::Xmodem(b)) => (b@, action) == a@.step(
                event,
            ),
            (ReceiveMachine::Ymodem(a), ReceiveMachine::Ymodem(b)) => (b@, action) == a@.step(
                event,
            ),
            (ReceiveMachine::Zmodem(a), ReceiveMachine::Zmodem(b)) => (b@, action) == a@.step(
                event,
            ),
            _ => false,
        }
    }

    /// Take in an event and say what to do next.
    pub fn step(self, event: Event) -> (r: (ReceiveMachine, Action))
        requires
            self.wf(),
        ensures
            self.steps(event@, r.0, r.1@),
            r.0.wf(),
    {
        match self {
            ReceiveMachine::Xmodem(m) => {
                let mut m = m;
                let action = m.step(event);
                (ReceiveMachine::Xmodem(m), action)
            },
            ReceiveMachine::Ymodem(m) => {
                let mut m = m;
                let action = m.step(event);
                (ReceiveMachine::Ymodem(m), action)
            },
            ReceiveMachine::Zmodem(m) => {
                let mut m = m;
                let action = m.step(event);
                (ReceiveMachine::Zmodem(m), action)
            },
        }
    }

    /// The file name and the data that arrived.
    ///
    /// The XMODEM family transmits no name; the protocol's own is used there.
    pub fn into_file(self, protocol: FileTransferProtocol) -> (r: (String, Vec<u8>))
        ensures
            match self {
                ReceiveMachine::Xmodem(m) => r.0@ == protocol.spec_fallback() && r.1@
                    == m@.received,
                ReceiveMachine::Ymodem(m) => r.0@ == m@.name && r.1@ == m@.received,
                ReceiveMachine::Zmodem(m) => r.0@ == m@.name && r.1@ == m@.received,
            },
    {
        match self {
            ReceiveMachine::Xmodem(m) => (protocol.fallback_filename().to_owned(), m.into_data()),
            ReceiveMachine::Ymodem(m) => m.into_file(),
            ReceiveMachine::Zmodem(m) => m.into_file(),
        }
    }
}

/// Whether a machine and its first action begin to receive a file.
pub open spec fn starts_receiving(
    protocol: FileTransferProtocol,
    machine: ReceiveMachine,
    action: ActionView,
) -> bool {
    match (protocol, machine) {
            (FileTransferProtocol::Ymodem, ReceiveMachine::Ymodem(m)) => m@
                == ymodem::receiver_start() && action == send_then(
                seq![CRC_C],
                NextView::ReadByte { timeout_ms: 1000 },
            ),
            (FileTransferProtocol::Zmodem, ReceiveMachine::Zmodem(m)) => m@
                == zmodem::receiver_start() && action == zmodem::receiver_start().ask(
                zmodem::ReceivePhase::AwaitFile,
                zmodem::ZRINIT,
                zmodem::receiver_flags(),
            ).1,
            (FileTransferProtocol::Ymodem, _) | (FileTransferProtocol::Zmodem, _) => false,
            (_, ReceiveMachine::Xmodem(m)) => m@ == xmodem::receiver_start(!(protocol is Xmodem))
                && action == send_then(
                seq![xmodem::start_char(!(protocol is Xmodem))],
                NextView::ReadByte { timeout_ms: 1000 },
            ),
            _ => false,
        }
}

/// Receive a file with the given protocol.
pub fn receive(protocol: FileTransferProtocol) -> (r: (ReceiveMachine, Action))
    ensures
        r.0.wf(),
        starts_receiving(protocol, r.0, r.1@),
{
    match protocol {
        FileTransferProtocol::Ymodem => {
            let (m, a) = ymodem::Receiver::new();
            (ReceiveMachine::Ymodem(m), a)
        },
        FileTransferProtocol::Zmodem => {
            let (m, a) = zmodem::Receiver::new();
            (ReceiveMachine::Zmodem(m), a)
        },
        _ => {
            let (m, a) = xmodem::Receiver::new(protocol.uses_crc());
            (ReceiveMachine::Xmodem(m), a)
        },
    }
}

} // verus!
