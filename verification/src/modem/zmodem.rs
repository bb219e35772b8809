//! ZMODEM protocol (streaming with 32-bit CRC and ZDLE escaping).
use vstd::prelude::*;
use vstd::string::*;

use crate::modem;
use crate::modem::{
    crc32, failing, failing_with, from_le_bytes, sending, to_le_bytes, waiting, Action, ActionView, Event, EventView, Next,
    NextView, Progress,
};
use crate::text;
use crate::text::{concat2, decimal, decimal_usize, first_word, from_utf8_lossy, parse_usize, split};

verus! {

/// Padding in front of a header (`*`).
pub const ZPAD: u8 = 0x2A;
/// The escape byte (Ctrl-X).
pub const ZDLE: u8 = 0x18;
/// A binary header with a 32-bit CRC (`C`).
pub const ZBIN32: u8 = 0x43;

pub const ZRQINIT: u8 = 0;
pub const ZRINIT: u8 = 1;
pub const ZFILE: u8 = 4;
pub const ZFIN: u8 = 8;
pub const ZRPOS: u8 = 9;
pub const ZDATA: u8 = 10;
pub const ZEOF: u8 = 11;

/// End of a frame; a header follows.
pub const ZCRCE: u8 = 0x68;
/// More data follows at once.
pub const ZCRCG: u8 = 0x69;
/// End of a frame; the sender waits.
pub const ZCRCW: u8 = 0x6B;

/// Time within which a header must come, in milliseconds.
pub const HEADER_DEADLINE_MS: u64 = 4000;
/// Time within which the closing header must come, in milliseconds.
pub const FINISH_DEADLINE_MS: u64 = 2000;
/// Time between two looks for a header, in milliseconds.
pub const HEADER_POLL_MS: u64 = 200;
/// Time a receiver waits for the closing bytes, in milliseconds.
pub const CLOSING_MS: u64 = 200;
/// Bytes of data in one subpacket.
pub const SUBPACKET_LEN: usize = 1024;

// ---------------------------------------------------------------------------
// Escaping
// ---------------------------------------------------------------------------

/// Whether a byte may not stand on the line as it is.
pub open spec fn needs_escape(b: u8) -> bool {
    b == 0x10 || b == 0x11 || b == 0x13 || b == 0x18 || b == 0x7F || b == 0x90 || b == 0x91 || b
        == 0x93
}

/// A byte on the line.
pub open spec fn escape(b: u8) -> Seq<u8> {
    if needs_escape(b) {
        seq![ZDLE, b ^ 0x40]
    } else {
        seq![b]
    }
}

/// Bytes on the line.
pub open spec fn escaped(data: Seq<u8>) -> Seq<u8>
    decreases data.len(),
{
    if data.len() == 0 {
        Seq::empty()
    } else {
        escaped(data.drop_last()) + escape(data.last())
    }
}

/// Append a byte to what goes on the line.
pub fn escape_byte(b: u8, out: &mut Vec<u8>)
    ensures
        final(out)@ == old(out)@ + escape(b),
{
    if b == 0x10 || b == 0x11 || b == 0x13 || b == 0x18 || b == 0x7F || b == 0x90 || b == 0x91
        || b == 0x93 {
        out.push(ZDLE);
        out.push(b ^ 0x40);
    } else {
        out.push(b);
    }
    assert(out@ =~= old(out)@ + escape(b));
}

fn escape_all(data: &[u8], out: &mut Vec<u8>)
    ensures
        final(out)@ == old(out)@ + escaped(data@),
{
    let mut i: usize = 0;
    assert(out@ =~= old(out)@ + escaped(data@.take(0)));
    while i < data.len()
        invariant
            i <= data.len(),
            out@ == old(out)@ + escaped(data@.take(i as int)),
        decreases data.len() - i,
    {
        assert(data@.take(i + 1).drop_last() =~= data@.take(i as int));
        assert(data@.take(i + 1).last() == data@[i as int]);
        escape_byte(data[i], out);
        assert(out@ =~= old(out)@ + escaped(data@.take(i + 1)));
        i = i + 1;
    }
    assert(data@.take(data@.len() as int) =~= data@);
}

/// Whether a byte behind the escape byte ends a subpacket.
pub open spec fn is_frame_end(b: u8) -> bool {
    b == ZCRCE || b == ZCRCG || b == ZCRCW
}

/// What a byte on the line means: nothing yet, or a byte and whether it ends a
/// subpacket. The argument says whether the escape byte came before it.
pub open spec fn unescape(after_zdle: bool, b: u8) -> Option<(u8, bool)> {
    if after_zdle {
        if is_frame_end(b) {
            Some((b, true))
        } else {
            Some((b ^ 0x40, false))
        }
    } else if b == ZDLE {
        None
    } else {
        Some((b, false))
    }
}

fn read_escaped_byte(after_zdle: bool, b: u8) -> (r: Option<(u8, bool)>)
    ensures
        r == unescape(after_zdle, b),
{
    if after_zdle {
        if b == ZCRCE || b == ZCRCG || b == ZCRCW {
            Some((b, true))
        } else {
            Some((b ^ 0x40, false))
        }
    } else if b == ZDLE {
        None
    } else {
        Some((b, false))
    }
}

proof fn lemma_xor_40(b: u8)
    ensures
        (b ^ 0x40) ^ 0x40 == b,
        needs_escape(b) ==> !is_frame_end(b ^ 0x40),
        needs_escape(b) ==> b ^ 0x40 != ZDLE,
{
    assert((b ^ 0x40) ^ 0x40 == b) by (bit_vector);
    assert((b == 0x10 || b == 0x11 || b == 0x13 || b == 0x18 || b == 0x7F || b == 0x90 || b == 0x91
        || b == 0x93) ==> (b ^ 0x40 != 0x68 && b ^ 0x40 != 0x69 && b ^ 0x40 != 0x6B && b ^ 0x40
        != 0x18)) by (bit_vector);
}

// ---------------------------------------------------------------------------
// Headers
// ---------------------------------------------------------------------------

/// A header on the line.
pub open spec fn header_bytes(frame_type: u8, flags: Seq<u8>) -> Seq<u8> {
    let raw = seq![frame_type] + flags;
    seq![ZPAD, ZPAD, ZDLE, ZBIN32] + escaped(
        raw + modem::le_bytes(modem::spec_crc32(raw)),
    )
}

proof fn lemma_escaped_add(a: Seq<u8>, b: Seq<u8>)
    ensures
        escaped(a + b) == escaped(a) + escaped(b),
    decreases b.len(),
{
    if b.len() == 0 {
        assert(a + b =~= a);
        assert(escaped(a) + escaped(b) =~= escaped(a));
    } else {
        lemma_escaped_add(a, b.drop_last());
        assert((a + b).drop_last() =~= a + b.drop_last());
        assert(escaped(a + b) =~= escaped(a) + escaped(b));
    }
}

/// Build a header.
pub fn build_header(frame_type: u8, flags: &Vec<u8>) -> (r: Vec<u8>)
    ensures
        r@ == header_bytes(frame_type, flags@),
{
    let mut raw: Vec<u8> = Vec::new();
    raw.push(frame_type);
    raw.extend_from_slice(flags.as_slice());
    assert(raw@ =~= seq![frame_type] + flags@);
    let crc = to_le_bytes(crc32(raw.as_slice()));
    let mut out: Vec<u8> = Vec::new();
    out.push(ZPAD);
    out.push(ZPAD);
    out.push(ZDLE);
    out.push(ZBIN32);
    escape_all(raw.as_slice(), &mut out);
    escape_all(crc.as_slice(), &mut out);
    proof {
        lemma_escaped_add(raw@, crc@);
        assert(out@ =~= header_bytes(frame_type, flags@));
    }
    out
}

/// Where the search for a header stands.
#[derive(Debug, Clone, Copy, PartialEq, Eq, Structural)]
pub enum HeaderStage {
    /// Looking for the escape byte.
    Hunt,
    /// The escape byte came; the kind of the header follows.
    Kind,
    /// Reading the bytes of the header.
    Body { after_zdle: bool },
}

/// Finds headers in a stream of bytes.
pub struct HeaderReader {
    stage: HeaderStage,
    raw: Vec<u8>,
}

/// A header reader, as a value of the model.
#[verifier::ext_equal]
pub struct HeaderReaderView {
    pub stage: HeaderStage,
    pub raw: Seq<u8>,
}

impl View for HeaderReader {
    type V = HeaderReaderView;

    closed spec fn view(&self) -> HeaderReaderView {
        HeaderReaderView { stage: self.stage, raw: self.raw@ }
    }
}

/// What a reader of headers makes of a byte.
#[verifier::ext_equal]
pub enum HeaderView {
    /// No header is complete yet.
    Partial,
    /// A sound header: its type and its four flag bytes.
    Frame { frame_type: u8, flags: Seq<u8> },
    /// A header whose CRC does not match.
    Broken,
}

/// What a reader of headers makes of a byte.
pub enum Header {
    /// No header is complete yet.
    Partial,
    /// A sound header: its type and its four flag bytes.
    Frame { frame_type: u8, flags: Vec<u8> },
    /// A header whose CRC does not match.
    Broken,
}

impl View for Header {
    type V = HeaderView;

    open spec fn view(&self) -> HeaderView {
        match *self {
            Header::Partial => HeaderView::Partial,
            Header::Frame { frame_type, flags } => HeaderView::Frame { frame_type, flags: flags@ },
            Header::Broken => HeaderView::Broken,
        }
    }
}

/// A reader that has seen nothing.
pub open spec fn header_start() -> HeaderReaderView {
    HeaderReaderView { stage: HeaderStage::Hunt, raw: Seq::empty() }
}

/// What nine decoded bytes of a header amount to.
pub open spec fn header_of(raw: Seq<u8>) -> HeaderView {
    if modem::spec_crc32(raw.take(5)) == modem::from_le(raw.skip(5)) {
        HeaderView::Frame { frame_type: raw[0], flags: raw.subrange(1, 5) }
    } else {
        HeaderView::Broken
    }
}

impl HeaderReaderView {
    /// A header is never longer than nine decoded bytes.
    pub open spec fn wf(self) -> bool {
        &&& self.raw.len() < 9
        &&& !(self.stage is Body) ==> self.raw.len() == 0
    }

    /// The reader after a byte, and what the byte completed.
    pub open spec fn push(self, b: u8) -> (HeaderReaderView, HeaderView) {
        match self.stage {
            HeaderStage::Hunt => (
                HeaderReaderView {
                    stage: if b == ZDLE {
                        HeaderStage::Kind
                    } else {
                        HeaderStage::Hunt
                    },
                    ..self
                },
                HeaderView::Partial,
            ),
            HeaderStage::Kind => (
                HeaderReaderView {
                    stage: if b == ZBIN32 {
                        HeaderStage::Body { after_zdle: false }
                    } else {
                        HeaderStage::Hunt
                    },
                    ..self
                },
                HeaderView::Partial,
            ),
            HeaderStage::Body { after_zdle } => match unescape(after_zdle, b) {
                None => (
                    HeaderReaderView { stage: HeaderStage::Body { after_zdle: true }, ..self },
                    HeaderView::Partial,
                ),
                Some((v, _)) => if self.raw.len() == 8 {
                    (header_start(), header_of(self.raw.push(v)))
                } else {
                    (
                        HeaderReaderView {
                            stage: HeaderStage::Body { after_zdle: false },
                            raw: self.raw.push(v),
                        },
                        HeaderView::Partial,
                    )
                },
            },
        }
    }

    /// The reader after several bytes of which none completed a header.
    pub open spec fn after(self, bytes: Seq<u8>) -> HeaderReaderView
        decreases bytes.len(),
    {
        if bytes.len() == 0 {
            self
        } else {
            self.after(bytes.drop_last()).push(bytes.last()).0
        }
    }

    /// Whether none of the bytes completes a header.
    pub open spec fn quiet(self, bytes: Seq<u8>) -> bool {
        forall|i: int|
            0 <= i < bytes.len() ==> #[trigger] self.after(bytes.take(i)).push(bytes[i]).1
                is Partial
    }
}

impl HeaderReader {
    /// A reader that has seen nothing.
    pub fn new() -> (r: HeaderReader)
        ensures
            r@ == header_start(),
            r@.wf(),
    {
        let r = HeaderReader { stage: HeaderStage::Hunt, raw: Vec::new() };
        assert(r@ =~= header_start());
        r
    }

    /// Where the search stands.
    pub fn stage(&self) -> (r: HeaderStage)
        ensures
            r == self@.stage,
    {
        self.stage
    }

    /// Take in a byte.
    pub fn push(&mut self, b: u8) -> (r: Header)
        requires
            old(self)@.wf(),
        ensures
            (final(self)@, r@) == old(self)@.push(b),
            final(self)@.wf(),
    {
        match self.stage {
            HeaderStage::Hunt => {
                if b == ZDLE {
                    self.stage = HeaderStage::Kind;
                }
                Header::Partial
            },
            HeaderStage::Kind => {
                if b == ZBIN32 {
                    self.stage = HeaderStage::Body { after_zdle: false };
                } else {
                    self.stage = HeaderStage::Hunt;
                }
                Header::Partial
            },
            HeaderStage::Body { after_zdle } => match read_escaped_byte(after_zdle, b) {
                None => {
                    self.stage = HeaderStage::Body { after_zdle: true };
                    Header::Partial
                },
                Some((v, _)) => {
                    self.raw.push(v);
                    if self.raw.len() < 9 {
                        self.stage = HeaderStage::Body { after_zdle: false };
                        return Header::Partial;
                    }
                    let ghost raw = self.raw@;
                    let head = vstd::slice::slice_subrange(self.raw.as_slice(), 0, 5);
                    let tail = vstd::slice::slice_subrange(self.raw.as_slice(), 5, 9);
                    assert(head@ =~= raw.take(5));
                    assert(tail@ =~= raw.skip(5));
                    let sound = crc32(head) == from_le_bytes(tail);
                    let frame_type = self.raw[0];
                    let mut flags: Vec<u8> = Vec::new();
                    flags.extend_from_slice(
                        vstd::slice::slice_subrange(self.raw.as_slice(), 1, 5),
                    );
                    assert(flags@ =~= raw.subrange(1, 5));
                    self.stage = HeaderStage::Hunt;
                    self.raw = Vec::new();
                    assert(self@ =~= header_start());
                    if sound {
                        Header::Frame { frame_type, flags }
                    } else {
                        Header::Broken
                    }
                },
            },
        }
    }
}

// ---------------------------------------------------------------------------
// Subpackets
// ---------------------------------------------------------------------------

/// A subpacket on the line.
pub open spec fn subpacket_bytes(data: Seq<u8>, frame_end: u8) -> Seq<u8> {
    escaped(data) + seq![ZDLE, frame_end] + escaped(
        modem::le_bytes(modem::spec_crc32(data.push(frame_end))),
    )
}

/// Build a subpacket.
pub fn build_subpacket(data: &[u8], frame_end: u8) -> (r: Vec<u8>)
    ensures
        r@ == subpacket_bytes(data@, frame_end),
{
    let mut payload: Vec<u8> = Vec::new();
    payload.extend_from_slice(data);
    payload.push(frame_end);
    assert(payload@ =~= data@.push(frame_end));
    let crc = to_le_bytes(crc32(payload.as_slice()));
    let mut out: Vec<u8> = Vec::new();
    escape_all(data, &mut out);
    out.push(ZDLE);
    out.push(frame_end);
    escape_all(crc.as_slice(), &mut out);
    assert(out@ =~= subpacket_bytes(data@, frame_end));
    out
}

/// Reads one subpacket out of a stream of bytes.
pub struct SubpacketReader {
    after_zdle: bool,
    data: Vec<u8>,
    frame_end: Option<u8>,
    crc: Vec<u8>,
}

/// A subpacket reader, as a value of the model.
#[verifier::ext_equal]
pub struct SubpacketReaderView {
    pub after_zdle: bool,
    pub data: Seq<u8>,
    pub frame_end: Option<u8>,
    pub crc: Seq<u8>,
}

impl View for SubpacketReader {
    type V = SubpacketReaderView;

    closed spec fn view(&self) -> SubpacketReaderView {
        SubpacketReaderView {
            after_zdle: self.after_zdle,
            data: self.data@,
            frame_end: self.frame_end,
            crc: self.crc@,
        }
    }
}

/// What a reader of subpackets makes of a byte.
#[verifier::ext_equal]
pub enum SubpacketView {
    /// The subpacket is not complete yet.
    Partial,
    /// A sound subpacket: its data and how it ends.
    Data { data: Seq<u8>, frame_end: u8 },
    /// A subpacket whose CRC does not match.
    Broken,
}

/// What a reader of subpackets makes of a byte.
pub enum Subpacket {
    /// The subpacket is not complete yet.
    Partial,
    /// A sound subpacket: its data and how it ends.
    Data { data: Vec<u8>, frame_end: u8 },
    /// A subpacket whose CRC does not match.
    Broken,
}

impl View for Subpacket {
    type V = SubpacketView;

    open spec fn view(&self) -> SubpacketView {
        match *self {
            Subpacket::Partial => SubpacketView::Partial,
            Subpacket::Data { data, frame_end } => SubpacketView::Data { data: data@, frame_end },
            Subpacket::Broken => SubpacketView::Broken,
        }
    }
}

/// A reader that has seen nothing.
pub open spec fn subpacket_start() -> SubpacketReaderView {
    SubpacketReaderView {
        after_zdle: false,
        data: Seq::empty(),
        frame_end: None,
        crc: Seq::empty(),
    }
}

impl SubpacketReaderView {
    /// The CRC has at most three bytes so far, and none before the data ended.
    pub open spec fn wf(self) -> bool {
        &&& self.crc.len() < 4
        &&& self.frame_end is None ==> self.crc.len() == 0
    }

    /// The reader after a byte, and what the byte completed.
    pub open spec fn push(self, b: u8) -> (SubpacketReaderView, SubpacketView) {
        match unescape(self.after_zdle, b) {
            None => (SubpacketReaderView { after_zdle: true, ..self }, SubpacketView::Partial),
            Some((v, ends)) => match self.frame_end {
                None => (
                    if ends {
                        SubpacketReaderView { after_zdle: false, frame_end: Some(v), ..self }
                    } else {
                        SubpacketReaderView { after_zdle: false, data: self.data.push(v), ..self }
                    },
                    SubpacketView::Partial,
                ),
                Some(end) => if self.crc.len() == 3 {
                    (
                        subpacket_start(),
                        if modem::from_le(self.crc.push(v)) == modem::spec_crc32(
                            self.data.push(end),
                        ) {
                            SubpacketView::Data { data: self.data, frame_end: end }
                        } else {
                            SubpacketView::Broken
                        },
                    )
                } else {
                    (
                        SubpacketReaderView {
                            after_zdle: false,
                            crc: self.crc.push(v),
                            ..self
                        },
                        SubpacketView::Partial,
                    )
                },
            },
        }
    }

    /// The reader after several bytes of which none completed the subpacket.
    pub open spec fn after(self, bytes: Seq<u8>) -> SubpacketReaderView
        decreases bytes.len(),
    {
        if bytes.len() == 0 {
            self
        } else {
            self.after(bytes.drop_last()).push(bytes.last()).0
        }
    }

    /// Whether none of the bytes completes the subpacket.
    pub open spec fn quiet(self, bytes: Seq<u8>) -> bool {
        forall|i: int|
            0 <= i < bytes.len() ==> #[trigger] self.after(bytes.take(i)).push(bytes[i]).1
                is Partial
    }
}

impl SubpacketReader {
    /// A reader that has seen nothing.
    pub fn new() -> (r: SubpacketReader)
        ensures
            r@ == subpacket_start(),
            r@.wf(),
    {
        let r = SubpacketReader {
            after_zdle: false,
            data: Vec::new(),
            frame_end: None,
            crc: Vec::new(),
        };
        assert(r@ =~= subpacket_start());
        r
    }

    /// Take in a byte.
    pub fn push(&mut self, b: u8) -> (r: Subpacket)
        requires
            old(self)@.wf(),
        ensures
            (final(self)@, r@) == old(self)@.push(b),
            final(self)@.wf(),
    {
        match read_escaped_byte(self.after_zdle, b) {
            None => {
                self.after_zdle = true;
                Subpacket::Partial
            },
            Some((v, ends)) => {
                self.after_zdle = false;
                match self.frame_end {
                    None => {
                        if ends {
                            self.frame_end = Some(v);
                        } else {
                            self.data.push(v);
                        }
                        Subpacket::Partial
                    },
                    Some(end) => {
                        self.crc.push(v);
                        if self.crc.len() < 4 {
                            return Subpacket::Partial;
                        }
                        let received = from_le_bytes(self.crc.as_slice());
                        let mut data: Vec<u8> = Vec::new();
                        std::mem::swap(&mut data, &mut self.data);
                        data.push(end);
                        let sound = received == crc32(data.as_slice());
                        data.pop();
                        assert(data@ =~= old(self)@.data);
                        self.frame_end = None;
                        self.crc = Vec::new();
                        assert(self@ =~= subpacket_start());
                        if sound {
                            Subpacket::Data { data, frame_end: end }
                        } else {
                            Subpacket::Broken
                        }
                    },
                }
            },
        }
    }
}

// ---------------------------------------------------------------------------
// What is written is read back
// ---------------------------------------------------------------------------

proof fn lemma_header_after_add(r: HeaderReaderView, a: Seq<u8>, b: Seq<u8>)
    ensures
        r.after(a + b) == r.after(a).after(b),
    decreases b.len(),
{
    if b.len() == 0 {
        assert(a + b =~= a);
    } else {
        lemma_header_after_add(r, a, b.drop_last());
        assert((a + b).drop_last() =~= a + b.drop_last());
    }
}

proof fn lemma_header_quiet_add(r: HeaderReaderView, a: Seq<u8>, b: Seq<u8>)
    requires
        r.quiet(a),
        r.after(a).quiet(b),
    ensures
        r.quiet(a + b),
{
    let c = a + b;
    assert forall|i: int| 0 <= i < c.len() implies #[trigger] r.after(c.take(i)).push(c[i]).1
        is Partial by {
        if i < a.len() {
            assert(c.take(i) =~= a.take(i));
            assert(r.after(a.take(i)).push(a[i]).1 is Partial);
        } else {
            let j = i - a.len();
            assert(c.take(i) =~= a + b.take(j));
            lemma_header_after_add(r, a, b.take(j));
            assert(r.after(a).after(b.take(j)).push(b[j]).1 is Partial);
        }
    }
}

/// Reading the escaped form of fewer bytes than a header holds collects them.
proof fn lemma_header_body(r: HeaderReaderView, data: Seq<u8>)
    requires
        r.stage == (HeaderStage::Body { after_zdle: false }),
        r.raw.len() + data.len() <= 8,
    ensures
        r.quiet(escaped(data)),
        r.after(escaped(data)) == (HeaderReaderView {
            stage: HeaderStage::Body { after_zdle: false },
            raw: r.raw + data,
        }),
    decreases data.len(),
{
    if data.len() == 0 {
        assert(r.raw + data =~= r.raw);
    } else {
        let head = data.drop_last();
        let b = data.last();
        lemma_header_body(r, head);
        lemma_xor_40(b);
        let mid = r.after(escaped(head));
        let e = escape(b);
        reveal_with_fuel(HeaderReaderView::after, 3);
        assert(e.take(0) =~= Seq::<u8>::empty());
        if needs_escape(b) {
            assert(e.drop_last() =~= seq![ZDLE]);
            assert(e.take(1) =~= seq![ZDLE]);
            assert(seq![ZDLE].drop_last() =~= Seq::<u8>::empty());
            assert(mid.after(seq![ZDLE]) == mid.push(ZDLE).0);
        } else {
            assert(e.drop_last() =~= Seq::<u8>::empty());
        }
        assert(mid.quiet(e));
        lemma_header_quiet_add(r, escaped(head), e);
        lemma_header_after_add(r, escaped(head), e);
        assert((r.raw + head).push(b) =~= r.raw + data);
    }
}

/// A fresh reader finds exactly the header that was built, at its last byte and
/// not before.
pub proof fn header_is_read_back(frame_type: u8, flags: Seq<u8>)
    requires
        flags.len() == 4,
    ensures
        ({
            let bytes = header_bytes(frame_type, flags);
            let r = header_start();
            &&& bytes.len() > 0
            &&& r.quiet(bytes.drop_last())
            &&& r.after(bytes.drop_last()).push(bytes.last()) == (
                header_start(),
                (HeaderView::Frame { frame_type, flags }),
            )
        }),
{
    let bytes = header_bytes(frame_type, flags);
    let r = header_start();
    let raw = seq![frame_type] + flags;
    let crc = modem::le_bytes(modem::spec_crc32(raw));
    modem::lemma_le_bytes(modem::spec_crc32(raw));
    let all = raw + crc;
    assert(all.len() == 9);
    let lead = seq![ZPAD, ZPAD, ZDLE, ZBIN32];
    let body = HeaderReaderView { stage: HeaderStage::Body { after_zdle: false }, raw: Seq::empty() };
    assert(r.quiet(lead) && r.after(lead) == body) by {
        reveal_with_fuel(HeaderReaderView::after, 5);
        assert(lead.drop_last() =~= seq![ZPAD, ZPAD, ZDLE]);
        assert(lead.drop_last().drop_last() =~= seq![ZPAD, ZPAD]);
        assert(lead.drop_last().drop_last().drop_last() =~= seq![ZPAD]);
        assert(lead.drop_last().drop_last().drop_last().drop_last() =~= Seq::<u8>::empty());
        assert(lead.take(0) =~= Seq::<u8>::empty());
        assert(lead.take(1) =~= seq![ZPAD]);
        assert(lead.take(2) =~= seq![ZPAD, ZPAD]);
        assert(lead.take(3) =~= seq![ZPAD, ZPAD, ZDLE]);
    }
    let head = all.drop_last();
    let b = all.last();
    lemma_header_body(body, head);
    lemma_header_quiet_add(r, lead, escaped(head));
    lemma_header_after_add(r, lead, escaped(head));
    let front = lead + escaped(head);
    let mid = r.after(front);
    assert(Seq::<u8>::empty() + head =~= head);
    assert(mid.raw == head);
    lemma_xor_40(b);
    assert(head.push(b) =~= all);
    assert(all.take(5) =~= raw);
    assert(all.skip(5) =~= crc);
    assert(all.subrange(1, 5) =~= flags);
    if needs_escape(b) {
        assert(bytes =~= front + seq![ZDLE, b ^ 0x40]);
        assert(bytes.drop_last() =~= front + seq![ZDLE]);
        reveal_with_fuel(HeaderReaderView::after, 2);
        assert(seq![ZDLE].drop_last() =~= Seq::<u8>::empty());
        assert(seq![ZDLE].take(0) =~= Seq::<u8>::empty());
        assert(mid.quiet(seq![ZDLE]));
        lemma_header_quiet_add(r, front, seq![ZDLE]);
        lemma_header_after_add(r, front, seq![ZDLE]);
    } else {
        assert(bytes =~= front + seq![b]);
        assert(bytes.drop_last() =~= front);
    }
}

proof fn lemma_sub_after_add(r: SubpacketReaderView, a: Seq<u8>, b: Seq<u8>)
    ensures
        r.after(a + b) == r.after(a).after(b),
    decreases b.len(),
{
    if b.len() == 0 {
        assert(a + b =~= a);
    } else {
        lemma_sub_after_add(r, a, b.drop_last());
        assert((a + b).drop_last() =~= a + b.drop_last());
    }
}

proof fn lemma_sub_quiet_add(r: SubpacketReaderView, a: Seq<u8>, b: Seq<u8>)
    requires
        r.quiet(a),
        r.after(a).quiet(b),
    ensures
        r.quiet(a + b),
{
    let c = a + b;
    assert forall|i: int| 0 <= i < c.len() implies #[trigger] r.after(c.take(i)).push(c[i]).1
        is Partial by {
        if i < a.len() {
            assert(c.take(i) =~= a.take(i));
            assert(r.after(a.take(i)).push(a[i]).1 is Partial);
        } else {
            let j = i - a.len();
            assert(c.take(i) =~= a + b.take(j));
            lemma_sub_after_add(r, a, b.take(j));
            assert(r.after(a).after(b.take(j)).push(b[j]).1 is Partial);
        }
    }
}

proof fn lemma_sub_data(r: SubpacketReaderView, data: Seq<u8>)
    requires
        !r.after_zdle,
        r.frame_end is None,
    ensures
        r.quiet(escaped(data)),
        r.after(escaped(data)) == (SubpacketReaderView { data: r.data + data, ..r }),
    decreases data.len(),
{
    if data.len() == 0 {
        assert(r.data + data =~= r.data);
    } else {
        let head = data.drop_last();
        let b = data.last();
        lemma_sub_data(r, head);
        lemma_xor_40(b);
        let mid = r.after(escaped(head));
        let e = escape(b);
        reveal_with_fuel(SubpacketReaderView::after, 3);
        assert(e.take(0) =~= Seq::<u8>::empty());
        if needs_escape(b) {
            assert(e.drop_last() =~= seq![ZDLE]);
            assert(e.take(1) =~= seq![ZDLE]);
            assert(seq![ZDLE].drop_last() =~= Seq::<u8>::empty());
            assert(mid.after(seq![ZDLE]) == mid.push(ZDLE).0);
        } else {
            assert(e.drop_last() =~= Seq::<u8>::empty());
        }
        assert(mid.quiet(e));
        lemma_sub_quiet_add(r, escaped(head), e);
        lemma_sub_after_add(r, escaped(head), e);
        assert((r.data + head).push(b) =~= r.data + data);
    }
}

proof fn lemma_sub_crc(r: SubpacketReaderView, data: Seq<u8>)
    requires
        !r.after_zdle,
        r.frame_end is Some,
        r.crc.len() + data.len() <= 3,
    ensures
        r.quiet(escaped(data)),
        r.after(escaped(data)) == (SubpacketReaderView { crc: r.crc + data, ..r }),
    decreases data.len(),
{
    if data.len() == 0 {
        assert(r.crc + data =~= r.crc);
    } else {
        let head = data.drop_last();
        let b = data.last();
        lemma_sub_crc(r, head);
        lemma_xor_40(b);
        let mid = r.after(escaped(head));
        let e = escape(b);
        reveal_with_fuel(SubpacketReaderView::after, 3);
        assert(e.take(0) =~= Seq::<u8>::empty());
        if needs_escape(b) {
            assert(e.drop_last() =~= seq![ZDLE]);
            assert(e.take(1) =~= seq![ZDLE]);
            assert(seq![ZDLE].drop_last() =~= Seq::<u8>::empty());
            assert(mid.after(seq![ZDLE]) == mid.push(ZDLE).0);
        } else {
            assert(e.drop_last() =~= Seq::<u8>::empty());
        }
        assert(mid.quiet(e));
        lemma_sub_quiet_add(r, escaped(head), e);
        lemma_sub_after_add(r, escaped(head), e);
        assert((r.crc + head).push(b) =~= r.crc + data);
    }
}

/// A fresh reader finds exactly the subpacket that was built, at its last byte
/// and not before.
pub proof fn subpacket_is_read_back(data: Seq<u8>, frame_end: u8)
    requires
        is_frame_end(frame_end),
    ensures
        ({
            let bytes = subpacket_bytes(data, frame_end);
            let r = subpacket_start();
            &&& bytes.len() > 0
            &&& r.quiet(bytes.drop_last())
            &&& r.after(bytes.drop_last()).push(bytes.last()) == (
                subpacket_start(),
                (SubpacketView::Data { data, frame_end }),
            )
        }),
{
    let bytes = subpacket_bytes(data, frame_end);
    let r = subpacket_start();
    let crc = modem::le_bytes(modem::spec_crc32(data.push(frame_end)));
    modem::lemma_le_bytes(modem::spec_crc32(data.push(frame_end)));
    lemma_sub_data(r, data);
    let r1 = r.after(escaped(data));
    assert(Seq::<u8>::empty() + data =~= data);
    let mark = seq![ZDLE, frame_end];
    let r2 = SubpacketReaderView { frame_end: Some(frame_end), ..r1 };
    assert(r1.quiet(mark) && r1.after(mark) == r2) by {
        reveal_with_fuel(SubpacketReaderView::after, 3);
        assert(mark.drop_last() =~= seq![ZDLE]);
        assert(seq![ZDLE].drop_last() =~= Seq::<u8>::empty());
        assert(mark.take(0) =~= Seq::<u8>::empty());
        assert(mark.take(1) =~= seq![ZDLE]);
    }
    lemma_sub_quiet_add(r, escaped(data), mark);
    lemma_sub_after_add(r, escaped(data), mark);
    let head = crc.drop_last();
    let b = crc.last();
    lemma_sub_crc(r2, head);
    assert(Seq::<u8>::empty() + head =~= head);
    let front = escaped(data) + mark + escaped(head);
    lemma_sub_quiet_add(r, escaped(data) + mark, escaped(head));
    lemma_sub_after_add(r, escaped(data) + mark, escaped(head));
    let mid = r.after(front);
    lemma_xor_40(b);
    assert(head.push(b) =~= crc);
    if needs_escape(b) {
        assert(bytes =~= front + seq![ZDLE, b ^ 0x40]);
        assert(bytes.drop_last() =~= front + seq![ZDLE]);
        reveal_with_fuel(SubpacketReaderView::after, 2);
        assert(seq![ZDLE].drop_last() =~= Seq::<u8>::empty());
        assert(seq![ZDLE].take(0) =~= Seq::<u8>::empty());
        assert(mid.quiet(seq![ZDLE]));
        lemma_sub_quiet_add(r, front, seq![ZDLE]);
        lemma_sub_after_add(r, front, seq![ZDLE]);
    } else {
        assert(bytes =~= front + seq![b]);
        assert(bytes.drop_last() =~= front);
    }
}

// ---------------------------------------------------------------------------
// File metadata
// ---------------------------------------------------------------------------

/// The metadata that goes in front of a file: name and size.
pub open spec fn file_info(name: Seq<char>, size: nat) -> Seq<u8> {
    vstd::utf8::encode_utf8(name) + seq![0u8] + vstd::utf8::encode_utf8(text::dec_nat(size)) + seq![
        0x20u8,
        0x30u8,
        0u8,
        0u8,
    ]
}

/// The file name in the metadata.
pub open spec fn info_name(info: Seq<u8>) -> Seq<char> {
    text::split_at_char(text::utf8_lossy(info), '\0')[0]
}

/// The file size in the metadata; zero where it holds none.
pub open spec fn info_size(info: Seq<u8>) -> usize {
    let parts = text::split_at_char(text::utf8_lossy(info), '\0');
    if parts.len() > 1 {
        match text::parse_nat(text::first_word_of(parts[1]), usize::MAX as nat) {
            Some(n) => n as usize,
            None => 0,
        }
    } else {
        0
    }
}

/// Build the metadata of a file.
pub fn build_file_info(name: &str, size: usize) -> (r: Vec<u8>)
    ensures
        r@ == file_info(name@, size as nat),
{
    let mut out: Vec<u8> = Vec::new();
    out.extend_from_slice(name.as_bytes());
    out.push(0);
    let digits = decimal_usize(size);
    out.extend_from_slice(digits.as_str().as_bytes());
    out.push(0x20);
    out.push(0x30);
    out.push(0);
    out.push(0);
    assert(out@ =~= file_info(name@, size as nat));
    out
}

/// Read the file name and size out of the metadata.
pub fn parse_file_info(info: &[u8]) -> (r: (String, usize))
    ensures
        r.0@ == info_name(info@),
        r.1 == info_size(info@),
{
    let decoded = from_utf8_lossy(info);
    let mut parts = split(decoded.as_str(), '\0');
    let ghost all = text::split_at_char(text::utf8_lossy(info@), '\0');
    assert(text::texts(parts@) == all);
    let size: usize = if parts.len() > 1 {
        assert(parts@[1]@ == all[1]);
        match parse_usize(first_word(parts[1].as_str()).as_str()) {
            Some(n) => n,
            None => 0,
        }
    } else {
        0
    };
    assert(parts@[0]@ == all[0]);
    let name = parts[0].clone();
    (name, size)
}

// ---------------------------------------------------------------------------
// Listening for a header
// ---------------------------------------------------------------------------

/// The byte that an event brings, if it brings exactly one.
pub open spec fn event_byte(event: EventView) -> Option<u8> {
    match event {
        EventView::Byte(b) => Some(b),
        EventView::Bytes(s) => if s.len() == 1 {
            Some(s[0])
        } else {
            None
        },
        _ => None,
    }
}

fn byte_of(event: &Event) -> (r: Option<u8>)
    ensures
        r == event_byte(event@),
{
    match event {
        Event::Byte(b) => Some(*b),
        Event::Bytes(s) => if s.len() == 1 {
            Some(s[0])
        } else {
            None
        },
        _ => None,
    }
}

/// What came of listening for a header.
#[verifier::ext_equal]
pub enum HeardView {
    /// Nothing yet.
    Silence,
    /// A header.
    Frame { frame_type: u8, flags: Seq<u8> },
    /// No header will come.
    Lost(Seq<char>),
}

enum Heard {
    Silence,
    Frame { frame_type: u8, flags: Vec<u8> },
    Lost(String),
}

impl View for Heard {
    type V = HeardView;

    closed spec fn view(&self) -> HeardView {
        match *self {
            Heard::Silence => HeardView::Silence,
            Heard::Frame { frame_type, flags } => HeardView::Frame { frame_type, flags: flags@ },
            Heard::Lost(e) => HeardView::Lost(e@),
        }
    }
}

impl HeaderReaderView {
    /// What a listener for a header makes of an event.
    ///
    /// A read error before the escape byte is passed over; the search then ends
    /// at its deadline. The deadline does not apply within a header.
    pub open spec fn listen(self, event: EventView) -> (HeaderReaderView, HeardView) {
        match event_byte(event) {
            Some(b) => {
                let (next, header) = self.push(b);
                (
                    next,
                    match header {
                        HeaderView::Partial => HeardView::Silence,
                        HeaderView::Frame { frame_type, flags } => HeardView::Frame {
                            frame_type,
                            flags,
                        },
                        HeaderView::Broken => HeardView::Lost("ZMODEM header CRC-32 mismatch"@),
                    },
                )
            },
            None => match (event, self.stage) {
                (EventView::Deadline, HeaderStage::Hunt) => (
                    self,
                    HeardView::Lost("ZMODEM header timeout"@),
                ),
                (EventView::ReadFailed(e), HeaderStage::Kind) => (self, HeardView::Lost(e)),
                (EventView::ReadFailed(e), HeaderStage::Body { .. }) => (
                    self,
                    HeardView::Lost("I/O error: "@ + e),
                ),
                _ => (self, HeardView::Silence),
            },
        }
    }

    /// The wait of a listener for a header.
    pub open spec fn wait(self, deadline_ms: u64, restart: bool) -> NextView {
        match self.stage {
            HeaderStage::Hunt => NextView::Poll {
                timeout_ms: HEADER_POLL_MS,
                deadline_ms,
                restart,
            },
            _ => NextView::ReadExact(1),
        }
    }
}

impl HeaderReader {
    fn listen(&mut self, event: &Event) -> (r: Heard)
        requires
            old(self)@.wf(),
        ensures
            (final(self)@, r@) == old(self)@.listen(event@),
            final(self)@.wf(),
    {
        match byte_of(event) {
            Some(b) => match self.push(b) {
                Header::Partial => Heard::Silence,
                Header::Frame { frame_type, flags } => Heard::Frame { frame_type, flags },
                Header::Broken => Heard::Lost("ZMODEM header CRC-32 mismatch".to_owned()),
            },
            None => match event {
                Event::Deadline => match self.stage {
                    HeaderStage::Hunt => Heard::Lost("ZMODEM header timeout".to_owned()),
                    _ => Heard::Silence,
                },
                Event::ReadFailed(e) => match self.stage {
                    HeaderStage::Hunt => Heard::Silence,
                    HeaderStage::Kind => Heard::Lost(e.clone()),
                    HeaderStage::Body { .. } => Heard::Lost(concat2("I/O error: ", e.as_str())),
                },
                _ => Heard::Silence,
            },
        }
    }

    fn wait(&self, deadline_ms: u64, restart: bool) -> (r: Next)
        ensures
            r@ == self@.wait(deadline_ms, restart),
    {
        match self.stage {
            HeaderStage::Hunt => Next::Poll { timeout_ms: HEADER_POLL_MS, deadline_ms, restart },
            _ => Next::ReadExact(1),
        }
    }
}

/// Four zero bytes.
pub open spec fn no_flags() -> Seq<u8> {
    seq![0u8, 0u8, 0u8, 0u8]
}

/// What a receiver can do.
pub open spec fn receiver_flags() -> Seq<u8> {
    seq![0u8, 0u8, 0u8, 0x23u8]
}

fn flag_bytes(last: u8) -> (r: Vec<u8>)
    ensures
        r@ == seq![0u8, 0u8, 0u8, last],
{
    let mut v: Vec<u8> = Vec::new();
    v.push(0);
    v.push(0);
    v.push(0);
    v.push(last);
    assert(v@ =~= seq![0u8, 0u8, 0u8, last]);
    v
}

// ---------------------------------------------------------------------------
// Sender
// ---------------------------------------------------------------------------

/// Where a sender stands.
#[derive(Debug, Clone, Copy, PartialEq, Eq, Structural)]
pub enum SendPhase {
    /// Waiting for the receiver to be ready.
    AwaitInit,
    /// The file header is on the line; its metadata follows.
    FileHeader,
    /// Waiting for the position to start from.
    AwaitPos,
    /// Sending the data from `offset` on.
    Stream { offset: usize },
    /// Waiting for the receiver to confirm the end of the file.
    AwaitEnd,
    /// Waiting for the receiver to say goodbye.
    AwaitFin,
    /// The transfer is complete.
    Done,
    /// The transfer was given up.
    Failed,
}

/// A ZMODEM sender.
pub struct Sender {
    name: String,
    data: Vec<u8>,
    phase: SendPhase,
    header: HeaderReader,
    subpacket_out: bool,
}

/// A ZMODEM sender, as a value of the model.
#[verifier::ext_equal]
pub struct SenderView {
    pub name: Seq<char>,
    pub data: Seq<u8>,
    pub phase: SendPhase,
    pub header: HeaderReaderView,
    /// Whether the last thing written was a subpacket.
    pub subpacket_out: bool,
}

impl View for Sender {
    type V = SenderView;

    closed spec fn view(&self) -> SenderView {
        SenderView {
            name: self.name@,
            data: self.data@,
            phase: self.phase,
            header: self.header@,
            subpacket_out: self.subpacket_out,
        }
    }
}

/// The sender of some data before anything has happened.
pub open spec fn sender_start(name: Seq<char>, data: Seq<u8>) -> SenderView {
    SenderView {
        name,
        data,
        phase: SendPhase::AwaitInit,
        header: header_start(),
        subpacket_out: false,
    }
}

/// The piece of the data that starts at `offset`, and how its subpacket ends.
pub open spec fn chunk_at(data: Seq<u8>, offset: int) -> (Seq<u8>, u8) {
    if offset + SUBPACKET_LEN < data.len() {
        (data.subrange(offset, offset + SUBPACKET_LEN), ZCRCG)
    } else {
        (data.skip(offset), ZCRCE)
    }
}

impl SenderView {
    /// The reader is in a sound state.
    pub open spec fn wf(self) -> bool {
        self.header.wf()
    }

    /// The same sender in another phase.
    pub open spec fn to(self, phase: SendPhase) -> SenderView {
        SenderView { phase, ..self }
    }

    /// Give up with the given reason.
    pub open spec fn give_up(self, reason: Seq<char>) -> (SenderView, ActionView) {
        (self.to(SendPhase::Failed), modem::fail(reason))
    }

    /// The wait that belongs to the phase.
    pub open spec fn pending(self) -> NextView {
        match self.phase {
            SendPhase::FileHeader | SendPhase::Stream { .. } => NextView::Proceed,
            SendPhase::Done => NextView::Done,
            SendPhase::Failed => NextView::Failed("ZMODEM transfer has ended"@),
            _ => self.header.wait(HEADER_DEADLINE_MS, false),
        }
    }

    /// Stay and wait on.
    pub open spec fn stay(self) -> (SenderView, ActionView) {
        (self, modem::wait(self.pending()))
    }

    /// Send a header and listen for the answer.
    pub open spec fn ask(self, phase: SendPhase, frame_type: u8, flags: Seq<u8>) -> (
        SenderView,
        ActionView,
    ) {
        let next = SenderView { phase, subpacket_out: false, ..self };
        (
            next,
            modem::send_then(
                header_bytes(frame_type, flags),
                next.header.wait(HEADER_DEADLINE_MS, true),
            ),
        )
    }

    /// Send a header and go on at once.
    pub open spec fn tell(self, phase: SendPhase, frame_type: u8, flags: Seq<u8>) -> (
        SenderView,
        ActionView,
    ) {
        (
            SenderView { phase, subpacket_out: false, ..self },
            modem::send_then(header_bytes(frame_type, flags), NextView::Proceed),
        )
    }

    /// Send the metadata of the file.
    pub open spec fn send_info(self) -> (SenderView, ActionView) {
        (
            SenderView { phase: SendPhase::AwaitPos, subpacket_out: true, ..self },
            modem::send_then(
                subpacket_bytes(file_info(self.name, self.data.len()), ZCRCW),
                self.header.wait(HEADER_DEADLINE_MS, true),
            ),
        )
    }

    /// Send the next piece of the data, or the end of the file behind the last.
    pub open spec fn send_piece(self, offset: int) -> (SenderView, ActionView) {
        let len = self.data.len() as int;
        if offset < len {
            let (chunk, frame_end) = chunk_at(self.data, offset);
            let end = offset + chunk.len();
            (
                SenderView {
                    phase: SendPhase::Stream { offset: end as usize },
                    subpacket_out: true,
                    ..self
                },
                ActionView {
                    send: subpacket_bytes(chunk, frame_end),
                    progress: Some(Progress { done: end as usize, total: Some(len as usize) }),
                    next: NextView::Proceed,
                },
            )
        } else {
            self.ask(SendPhase::AwaitEnd, ZEOF, modem::le_bytes(len as u32))
        }
    }

    /// The last answer has come or will not come: say goodbye.
    pub open spec fn goodbye(self) -> (SenderView, ActionView) {
        (self.to(SendPhase::Done), modem::send_then(seq![0x4Fu8, 0x4Fu8], NextView::Done))
    }

    /// What the sender does on a header.
    pub open spec fn on_frame(self, frame_type: u8, flags: Seq<u8>) -> (SenderView, ActionView) {
        match self.phase {
            SendPhase::AwaitInit => if frame_type == ZRINIT {
                self.tell(SendPhase::FileHeader, ZFILE, no_flags())
            } else {
                self.give_up(
                    "expected ZRINIT, got frame type "@ + text::dec_nat(frame_type as nat),
                )
            },
            SendPhase::AwaitPos => if frame_type == ZRINIT || frame_type == ZRQINIT {
                (self, modem::wait(self.header.wait(HEADER_DEADLINE_MS, true)))
            } else if frame_type == ZRPOS {
                self.tell(
                    SendPhase::Stream { offset: modem::from_le(flags) as usize },
                    ZDATA,
                    flags,
                )
            } else {
                self.give_up(
                    "expected ZRPOS, got frame type "@ + text::dec_nat(frame_type as nat),
                )
            },
            SendPhase::AwaitEnd => if frame_type == ZRINIT {
                self.ask(SendPhase::AwaitFin, ZFIN, no_flags())
            } else {
                (self.to(SendPhase::Done), modem::wait(NextView::Done))
            },
            SendPhase::AwaitFin => self.goodbye(),
            _ => self.stay(),
        }
    }

    /// Whether the sender listens for a header.
    pub open spec fn listens(self) -> bool {
        self.phase is AwaitInit || self.phase is AwaitPos || self.phase is AwaitEnd
            || self.phase is AwaitFin
    }

    /// What the sender does on an event.
    pub open spec fn step(self, event: EventView) -> (SenderView, ActionView) {
        match (event, self.phase) {
            (EventView::WriteFailed(_), SendPhase::Done) => self.stay(),
            (EventView::WriteFailed(_), SendPhase::Failed) => self.stay(),
            (EventView::WriteFailed(e), _) => if self.subpacket_out {
                self.give_up("ZMODEM subpacket write error: "@ + e)
            } else {
                self.give_up("ZMODEM header write error: "@ + e)
            },
            (EventView::Proceed, SendPhase::FileHeader) => self.send_info(),
            (EventView::Proceed, SendPhase::Stream { offset }) => self.send_piece(offset as int),
            _ => if self.listens() {
                let (header, heard) = self.header.listen(event);
                let next = SenderView { header, ..self };
                match heard {
                    HeardView::Silence => next.stay(),
                    HeardView::Frame { frame_type, flags } => next.on_frame(frame_type, flags),
                    HeardView::Lost(e) => if self.phase is AwaitFin {
                        next.goodbye()
                    } else {
                        next.give_up(e)
                    },
                }
            } else {
                self.stay()
            },
        }
    }
}

impl Sender {
    /// A sender of the given data under the given name, and its first action:
    /// to invite the receiver.
    pub fn new(name: &str, data: Vec<u8>) -> (r: (Sender, Action))
        ensures
            r.0@ == sender_start(name@, data@),
            r.0@.wf(),
            r.1@ == sender_start(name@, data@).ask(SendPhase::AwaitInit, ZRQINIT, no_flags()).1,
    {
        let mut s = Sender {
            name: name.to_owned(),
            data,
            phase: SendPhase::AwaitInit,
            header: HeaderReader::new(),
            subpacket_out: false,
        };
        let a = s.ask(SendPhase::AwaitInit, ZRQINIT, flag_bytes(0));
        assert(s@ =~= sender_start(name@, data@));
        (s, a)
    }

    /// Number of bytes in the data.
    pub fn total(&self) -> (r: usize)
        ensures
            r == self@.data.len(),
    {
        self.data.len()
    }

    fn pending(&self) -> (r: Next)
        ensures
            r@ == self@.pending(),
    {
        match self.phase {
            SendPhase::FileHeader => Next::Proceed,
            SendPhase::Stream { .. } => Next::Proceed,
            SendPhase::Done => Next::Done,
            SendPhase::Failed => Next::Failed("ZMODEM transfer has ended".to_owned()),
            _ => self.header.wait(HEADER_DEADLINE_MS, false),
        }
    }

    fn stay(&self) -> (r: Action)
        ensures
            (self@, r@) == self@.stay(),
    {
        waiting(self.pending())
    }

    fn give_up(&mut self, prefix: &str, detail: &str) -> (r: Action)
        ensures
            (final(self)@, r@) == old(self)@.give_up(prefix@ + detail@),
    {
        self.phase = SendPhase::Failed;
        failing(prefix, detail)
    }

    fn stop(&mut self, reason: &str) -> (r: Action)
        ensures
            (final(self)@, r@) == old(self)@.give_up(reason@),
    {
        self.phase = SendPhase::Failed;
        failing_with(reason)
    }

    fn ask(&mut self, phase: SendPhase, frame_type: u8, flags: Vec<u8>) -> (r: Action)
        ensures
            (final(self)@, r@) == old(self)@.ask(phase, frame_type, flags@),
    {
        self.phase = phase;
        self.subpacket_out = false;
        sending(build_header(frame_type, &flags), self.header.wait(HEADER_DEADLINE_MS, true))
    }

    fn tell(&mut self, phase: SendPhase, frame_type: u8, flags: Vec<u8>) -> (r: Action)
        ensures
            (final(self)@, r@) == old(self)@.tell(phase, frame_type, flags@),
    {
        self.phase = phase;
        self.subpacket_out = false;
        sending(build_header(frame_type, &flags), Next::Proceed)
    }

    fn send_info(&mut self) -> (r: Action)
        ensures
            (final(self)@, r@) == old(self)@.send_info(),
    {
        let info = build_file_info(self.name.as_str(), self.data.len());
        self.phase = SendPhase::AwaitPos;
        self.subpacket_out = true;
        sending(
            build_subpacket(info.as_slice(), ZCRCW),
            self.header.wait(HEADER_DEADLINE_MS, true),
        )
    }

    fn send_piece(&mut self, offset: usize) -> (r: Action)
        ensures
            (final(self)@, r@) == old(self)@.send_piece(offset as int),
    {
        let len = self.data.len();
        if offset < len {
            let last = len - offset <= SUBPACKET_LEN;
            let end: usize = if last {
                len
            } else {
                offset + SUBPACKET_LEN
            };
            let frame_end = if last {
                ZCRCE
            } else {
                ZCRCG
            };
            let chunk = vstd::slice::slice_subrange(self.data.as_slice(), offset, end);
            assert(chunk@ =~= chunk_at(self.data@, offset as int).0);
            let bytes = build_subpacket(chunk, frame_end);
            self.phase = SendPhase::Stream { offset: end };
            self.subpacket_out = true;
            let mut action = sending(bytes, Next::Proceed);
            action.progress = Some(Progress { done: end, total: Some(len) });
            action
        } else {
            let truncated: u32 = #[verifier::truncate] (len as u32);
            self.ask(SendPhase::AwaitEnd, ZEOF, to_le_bytes(truncated))
        }
    }

    fn goodbye(&mut self) -> (r: Action)
        ensures
            (final(self)@, r@) == old(self)@.goodbye(),
    {
        self.phase = SendPhase::Done;
        let mut v: Vec<u8> = Vec::new();
        v.push(0x4F);
        v.push(0x4F);
        assert(v@ =~= seq![0x4Fu8, 0x4Fu8]);
        sending(v, Next::Done)
    }

    fn on_frame(&mut self, frame_type: u8, flags: Vec<u8>) -> (r: Action)
        requires
            flags@.len() == 4,
        ensures
            (final(self)@, r@) == old(self)@.on_frame(frame_type, flags@),
            final(self)@.header == old(self)@.header,
    {
        match self.phase {
            SendPhase::AwaitInit => {
                if frame_type == ZRINIT {
                    self.tell(SendPhase::FileHeader, ZFILE, flag_bytes(0))
                } else {
                    self.give_up(
                        "expected ZRINIT, got frame type ",
                        decimal(frame_type as u64).as_str(),
                    )
                }
            },
            SendPhase::AwaitPos => {
                if frame_type == ZRINIT || frame_type == ZRQINIT {
                    waiting(self.header.wait(HEADER_DEADLINE_MS, true))
                } else if frame_type == ZRPOS {
                    let offset = from_le_bytes(flags.as_slice()) as usize;
                    self.tell(SendPhase::Stream { offset }, ZDATA, flags)
                } else {
                    self.give_up(
                        "expected ZRPOS, got frame type ",
                        decimal(frame_type as u64).as_str(),
                    )
                }
            },
            SendPhase::AwaitEnd => {
                if frame_type == ZRINIT {
                    self.ask(SendPhase::AwaitFin, ZFIN, flag_bytes(0))
                } else {
                    self.phase = SendPhase::Done;
                    waiting(Next::Done)
                }
            },
            SendPhase::AwaitFin => self.goodbye(),
            _ => self.stay(),
        }
    }

    fn hear(&mut self, event: &Event) -> (r: Action)
        requires
            old(self)@.wf(),
            old(self)@.listens(),
        ensures
            ({
                let (header, heard) = old(self)@.header.listen(event@);
                let next = SenderView { header, ..old(self)@ };
                (final(self)@, r@) == match heard {
                    HeardView::Silence => next.stay(),
                    HeardView::Frame { frame_type, flags } => next.on_frame(frame_type, flags),
                    HeardView::Lost(e) => if next.phase is AwaitFin {
                        next.goodbye()
                    } else {
                        next.give_up(e)
                    },
                }
            }),
            final(self)@.wf(),
    {
        match self.header.listen(event) {
            Heard::Silence => self.stay(),
            Heard::Frame { frame_type, flags } => self.on_frame(frame_type, flags),
            Heard::Lost(e) => match self.phase {
                SendPhase::AwaitFin => self.goodbye(),
                _ => self.stop(e.as_str()),
            },
        }
    }

    /// Take in an event and say what to do next.
    pub fn step(&mut self, event: Event) -> (r: Action)
        requires
            old(self)@.wf(),
        ensures
            (final(self)@, r@) == old(self)@.step(event@),
            final(self)@.wf(),
    {
        match self.phase {
            SendPhase::Done => return self.stay(),
            SendPhase::Failed => return self.stay(),
            _ => {},
        }
        if let Event::WriteFailed(e) = event {
            if self.subpacket_out {
                return self.give_up("ZMODEM subpacket write error: ", e.as_str());
            } else {
                return self.give_up("ZMODEM header write error: ", e.as_str());
            }
        }
        match self.phase {
            SendPhase::FileHeader => match event {
                Event::Proceed => self.send_info(),
                _ => self.stay(),
            },
            SendPhase::Stream { offset } => match event {
                Event::Proceed => self.send_piece(offset),
                _ => self.stay(),
            },
            _ => self.hear(&event),
        }
    }
}

// ---------------------------------------------------------------------------
// Receiver
// ---------------------------------------------------------------------------

/// Where a receiver stands.
#[derive(Debug, Clone, Copy, PartialEq, Eq, Structural)]
pub enum ReceivePhase {
    /// Waiting for a file, or for the sender to say goodbye.
    AwaitFile,
    /// Reading the metadata of the file.
    Info,
    /// Waiting for the data to begin.
    AwaitData,
    /// Reading data.
    Data,
    /// A frame of data has ended; its successor or the end of the file follows.
    AwaitNext,
    /// The file is complete; the sender may say goodbye.
    AwaitFinish,
    /// The goodbye of a sender without a file is being returned.
    Leaving,
    /// The goodbye was returned; the sender's last two bytes may follow.
    Closing,
    /// The transfer is complete.
    Done,
    /// The transfer was given up.
    Failed,
}

/// A ZMODEM receiver.
pub struct Receiver {
    name: String,
    expected_size: usize,
    received: Vec<u8>,
    phase: ReceivePhase,
    header: HeaderReader,
    subpacket: SubpacketReader,
}

/// A ZMODEM receiver, as a value of the model.
#[verifier::ext_equal]
pub struct ReceiverView {
    pub name: Seq<char>,
    pub expected_size: usize,
    pub received: Seq<u8>,
    pub phase: ReceivePhase,
    pub header: HeaderReaderView,
    pub subpacket: SubpacketReaderView,
}

impl View for Receiver {
    type V = ReceiverView;

    closed spec fn view(&self) -> ReceiverView {
        ReceiverView {
            name: self.name@,
            expected_size: self.expected_size,
            received: self.received@,
            phase: self.phase,
            header: self.header@,
            subpacket: self.subpacket@,
        }
    }
}

/// The receiver before anything has happened.
pub open spec fn receiver_start() -> ReceiverView {
    ReceiverView {
        name: Seq::empty(),
        expected_size: 0,
        received: Seq::empty(),
        phase: ReceivePhase::AwaitFile,
        header: header_start(),
        subpacket: subpacket_start(),
    }
}

impl ReceiverView {
    /// Both readers are in a sound state.
    pub open spec fn wf(self) -> bool {
        self.header.wf() && self.subpacket.wf()
    }

    /// The same receiver in another phase.
    pub open spec fn to(self, phase: ReceivePhase) -> ReceiverView {
        ReceiverView { phase, ..self }
    }

    /// Give up with the given reason.
    pub open spec fn give_up(self, reason: Seq<char>) -> (ReceiverView, ActionView) {
        (self.to(ReceivePhase::Failed), modem::fail(reason))
    }

    /// The time within which a header must come.
    pub open spec fn deadline(self) -> u64 {
        if self.phase is AwaitFinish {
            FINISH_DEADLINE_MS
        } else {
            HEADER_DEADLINE_MS
        }
    }

    /// Whether the receiver listens for a header.
    pub open spec fn listens(self) -> bool {
        self.phase is AwaitFile || self.phase is AwaitData || self.phase is AwaitNext
            || self.phase is AwaitFinish
    }

    /// The wait that belongs to the phase.
    pub open spec fn pending(self, restart: bool) -> NextView {
        match self.phase {
            ReceivePhase::Info | ReceivePhase::Data => NextView::ReadExact(1),
            ReceivePhase::Leaving => NextView::Proceed,
            ReceivePhase::Closing => NextView::ReadByte { timeout_ms: CLOSING_MS },
            ReceivePhase::Done => NextView::Done,
            ReceivePhase::Failed => NextView::Failed("ZMODEM transfer has ended"@),
            _ => self.header.wait(self.deadline(), restart),
        }
    }

    /// Stay and wait on.
    pub open spec fn stay(self) -> (ReceiverView, ActionView) {
        (self, modem::wait(self.pending(false)))
    }

    /// Go to another phase.
    pub open spec fn go(self, phase: ReceivePhase) -> (ReceiverView, ActionView) {
        (self.to(phase), modem::wait(self.to(phase).pending(true)))
    }

    /// Go to another phase, sending a header.
    pub open spec fn ask(self, phase: ReceivePhase, frame_type: u8, flags: Seq<u8>) -> (
        ReceiverView,
        ActionView,
    ) {
        (
            self.to(phase),
            modem::send_then(header_bytes(frame_type, flags), self.to(phase).pending(true)),
        )
    }

    /// What the receiver does on a header.
    pub open spec fn on_frame(self, frame_type: u8) -> (ReceiverView, ActionView) {
        match self.phase {
            ReceivePhase::AwaitFile => if frame_type == ZRQINIT {
                self.ask(ReceivePhase::AwaitFile, ZRINIT, receiver_flags())
            } else if frame_type == ZFIN {
                self.ask(ReceivePhase::Leaving, ZFIN, no_flags())
            } else if frame_type == ZFILE {
                self.go(ReceivePhase::Info)
            } else {
                self.go(ReceivePhase::AwaitFile)
            },
            ReceivePhase::AwaitData => if frame_type == ZDATA {
                self.go(ReceivePhase::Data)
            } else {
                self.give_up("expected ZDATA, got "@ + text::dec_nat(frame_type as nat))
            },
            ReceivePhase::AwaitNext => if frame_type == ZEOF {
                self.ask(ReceivePhase::AwaitFinish, ZRINIT, receiver_flags())
            } else {
                self.go(ReceivePhase::Data)
            },
            ReceivePhase::AwaitFinish => if frame_type == ZFIN {
                self.ask(ReceivePhase::Closing, ZFIN, no_flags())
            } else {
                self.go(ReceivePhase::Done)
            },
            _ => self.stay(),
        }
    }

    /// What the receiver does on a subpacket.
    pub open spec fn on_subpacket(self, data: Seq<u8>, frame_end: u8) -> (
        ReceiverView,
        ActionView,
    ) {
        match self.phase {
            ReceivePhase::Info => ReceiverView {
                name: info_name(data),
                expected_size: info_size(data),
                ..self
            }.ask(ReceivePhase::AwaitData, ZRPOS, no_flags()),
            _ => {
                let received = self.received + data;
                let next = ReceiverView { received, ..self }.go(
                    if frame_end == ZCRCE || frame_end == ZCRCW {
                        ReceivePhase::AwaitNext
                    } else {
                        ReceivePhase::Data
                    },
                );
                (
                    next.0,
                    ActionView {
                        progress: Some(
                            Progress {
                                done: received.len() as usize,
                                total: Some(self.expected_size),
                            },
                        ),
                        ..next.1
                    },
                )
            },
        }
    }

    /// What the receiver does on an event while it listens for a header.
    pub open spec fn hear(self, event: EventView) -> (ReceiverView, ActionView) {
        let (header, heard) = self.header.listen(event);
        let next = ReceiverView { header, ..self };
        match heard {
            HeardView::Silence => next.stay(),
            HeardView::Frame { frame_type, .. } => next.on_frame(frame_type),
            HeardView::Lost(e) => if self.phase is AwaitFinish {
                next.go(ReceivePhase::Done)
            } else {
                next.give_up(e)
            },
        }
    }

    /// What the receiver does on an event while it reads a subpacket.
    pub open spec fn take(self, event: EventView) -> (ReceiverView, ActionView) {
        match event_byte(event) {
            Some(b) => {
                let (subpacket, item) = self.subpacket.push(b);
                let next = ReceiverView { subpacket, ..self };
                match item {
                    SubpacketView::Partial => next.stay(),
                    SubpacketView::Data { data, frame_end } => next.on_subpacket(data, frame_end),
                    SubpacketView::Broken => next.give_up("ZMODEM subpacket CRC-32 mismatch"@),
                }
            },
            None => match event {
                EventView::ReadFailed(e) => self.give_up("I/O error: "@ + e),
                _ => self.stay(),
            },
        }
    }

    /// What the receiver does on an event.
    pub open spec fn step(self, event: EventView) -> (ReceiverView, ActionView) {
        match (event, self.phase) {
            (_, ReceivePhase::Done) => self.stay(),
            (_, ReceivePhase::Failed) => self.stay(),
            (EventView::WriteFailed(e), _) => self.give_up("ZMODEM header write error: "@ + e),
            (EventView::Proceed, ReceivePhase::Leaving) => self.go(ReceivePhase::Done),
            (_, ReceivePhase::Leaving) => self.stay(),
            (EventView::FlushFailed(_), ReceivePhase::Closing) => self.stay(),
            (_, ReceivePhase::Closing) => self.go(ReceivePhase::Done),
            (_, ReceivePhase::Info) => self.take(event),
            (_, ReceivePhase::Data) => self.take(event),
            _ => self.hear(event),
        }
    }
}

impl Receiver {
    /// A receiver, and its first action: to say that it is ready.
    pub fn new() -> (r: (Receiver, Action))
        ensures
            r.0@ == receiver_start(),
            r.0@.wf(),
            r.1@ == receiver_start().ask(ReceivePhase::AwaitFile, ZRINIT, receiver_flags()).1,
    {
        let mut s = Receiver {
            name: String::new(),
            expected_size: 0,
            received: Vec::new(),
            phase: ReceivePhase::AwaitFile,
            header: HeaderReader::new(),
            subpacket: SubpacketReader::new(),
        };
        assert(s@ =~= receiver_start());
        let a = s.ask(ReceivePhase::AwaitFile, ZRINIT, flag_bytes(0x23));
        assert(s@ =~= receiver_start());
        (s, a)
    }

    /// The file name and the data that arrived.
    pub fn into_file(self) -> (r: (String, Vec<u8>))
        ensures
            r.0@ == self@.name,
            r.1@ == self@.received,
    {
        (self.name, self.received)
    }

    fn pending(&self, restart: bool) -> (r: Next)
        ensures
            r@ == self@.pending(restart),
    {
        match self.phase {
            ReceivePhase::Info => Next::ReadExact(1),
            ReceivePhase::Data => Next::ReadExact(1),
            ReceivePhase::Leaving => Next::Proceed,
            ReceivePhase::Closing => Next::ReadByte { timeout_ms: CLOSING_MS },
            ReceivePhase::Done => Next::Done,
            ReceivePhase::Failed => Next::Failed("ZMODEM transfer has ended".to_owned()),
            ReceivePhase::AwaitFinish => self.header.wait(FINISH_DEADLINE_MS, restart),
            _ => self.header.wait(HEADER_DEADLINE_MS, restart),
        }
    }

    fn stay(&self) -> (r: Action)
        ensures
            (self@, r@) == self@.stay(),
    {
        waiting(self.pending(false))
    }

    fn go(&mut self, phase: ReceivePhase) -> (r: Action)
        ensures
            (final(self)@, r@) == old(self)@.go(phase),
    {
        self.phase = phase;
        waiting(self.pending(true))
    }

    fn ask(&mut self, phase: ReceivePhase, frame_type: u8, flags: Vec<u8>) -> (r: Action)
        ensures
            (final(self)@, r@) == old(self)@.ask(phase, frame_type, flags@),
    {
        self.phase = phase;
        sending(build_header(frame_type, &flags), self.pending(true))
    }

    fn give_up(&mut self, prefix: &str, detail: &str) -> (r: Action)
        ensures
            (final(self)@, r@) == old(self)@.give_up(prefix@ + detail@),
    {
        self.phase = ReceivePhase::Failed;
        failing(prefix, detail)
    }

    fn stop(&mut self, reason: &str) -> (r: Action)
        ensures
            (final(self)@, r@) == old(self)@.give_up(reason@),
    {
        self.phase = ReceivePhase::Failed;
        failing_with(reason)
    }

    fn on_frame(&mut self, frame_type: u8) -> (r: Action)
        ensures
            (final(self)@, r@) == old(self)@.on_frame(frame_type),
            final(self)@.header == old(self)@.header,
            final(self)@.subpacket == old(self)@.subpacket,
    {
        match self.phase {
            ReceivePhase::AwaitFile => {
                if frame_type == ZRQINIT {
                    self.ask(ReceivePhase::AwaitFile, ZRINIT, flag_bytes(0x23))
                } else if frame_type == ZFIN {
                    self.ask(ReceivePhase::Leaving, ZFIN, flag_bytes(0))
                } else if frame_type == ZFILE {
                    self.go(ReceivePhase::Info)
                } else {
                    self.go(ReceivePhase::AwaitFile)
                }
            },
            ReceivePhase::AwaitData => {
                if frame_type == ZDATA {
                    self.go(ReceivePhase::Data)
                } else {
                    self.give_up("expected ZDATA, got ", decimal(frame_type as u64).as_str())
                }
            },
            ReceivePhase::AwaitNext => {
                if frame_type == ZEOF {
                    self.ask(ReceivePhase::AwaitFinish, ZRINIT, flag_bytes(0x23))
                } else {
                    self.go(ReceivePhase::Data)
                }
            },
            ReceivePhase::AwaitFinish => {
                if frame_type == ZFIN {
                    self.ask(ReceivePhase::Closing, ZFIN, flag_bytes(0))
                } else {
                    self.go(ReceivePhase::Done)
                }
            },
            _ => self.stay(),
        }
    }

    fn on_subpacket(&mut self, data: Vec<u8>, frame_end: u8) -> (r: Action)
        ensures
            (final(self)@, r@) == old(self)@.on_subpacket(data@, frame_end),
            final(self)@.header == old(self)@.header,
            final(self)@.subpacket == old(self)@.subpacket,
    {
        match self.phase {
            ReceivePhase::Info => {
                let (name, size) = parse_file_info(data.as_slice());
                self.name = name;
                self.expected_size = size;
                self.ask(ReceivePhase::AwaitData, ZRPOS, flag_bytes(0))
            },
            _ => {
                self.received.extend_from_slice(data.as_slice());
                assert(self.received@ =~= old(self)@.received + data@);
                let done = self.received.len();
                let total = self.expected_size;
                let mut action = if frame_end == ZCRCE || frame_end == ZCRCW {
                    self.go(ReceivePhase::AwaitNext)
                } else {
                    self.go(ReceivePhase::Data)
                };
                action.progress = Some(Progress { done, total: Some(total) });
                action
            },
        }
    }

    fn hear(&mut self, event: &Event) -> (r: Action)
        requires
            old(self)@.wf(),
        ensures
            (final(self)@, r@) == old(self)@.hear(event@),
            final(self)@.wf(),
    {
        match self.header.listen(event) {
            Heard::Silence => self.stay(),
            Heard::Frame { frame_type, .. } => self.on_frame(frame_type),
            Heard::Lost(e) => match self.phase {
                ReceivePhase::AwaitFinish => self.go(ReceivePhase::Done),
                _ => self.stop(e.as_str()),
            },
        }
    }

    fn take(&mut self, event: &Event) -> (r: Action)
        requires
            old(self)@.wf(),
        ensures
            (final(self)@, r@) == old(self)@.take(event@),
            final(self)@.wf(),
    {
        match byte_of(event) {
            Some(b) => match self.subpacket.push(b) {
                Subpacket::Partial => self.stay(),
                Subpacket::Data { data, frame_end } => self.on_subpacket(data, frame_end),
                Subpacket::Broken => self.stop("ZMODEM subpacket CRC-32 mismatch"),
            },
            None => match event {
                Event::ReadFailed(e) => self.give_up("I/O error: ", e.as_str()),
                _ => self.stay(),
            },
        }
    }

    /// Take in an event and say what to do next.
    pub fn step(&mut self, event: Event) -> (r: Action)
        requires
            old(self)@.wf(),
        ensures
            (final(self)@, r@) == old(self)@.step(event@),
            final(self)@.wf(),
    {
        match self.phase {
            ReceivePhase::Done => return self.stay(),
            ReceivePhase::Failed => return self.stay(),
            _ => {},
        }
        if let Event::WriteFailed(e) = event {
            return self.give_up("ZMODEM header write error: ", e.as_str());
        }
        match self.phase {
            ReceivePhase::Leaving => match event {
                Event::Proceed => self.go(ReceivePhase::Done),
                _ => self.stay(),
            },
            ReceivePhase::Closing => match event {
                Event::FlushFailed(_) => self.stay(),
                _ => self.go(ReceivePhase::Done),
            },
            ReceivePhase::Info => self.take(&event),
            ReceivePhase::Data => self.take(&event),
            _ => self.hear(&event),
        }
    }
}

// ---------------------------------------------------------------------------
// A whole transfer
// ---------------------------------------------------------------------------

/// The metadata of a file gives back the name, unless that holds a zero
/// character, and the size.
pub proof fn file_info_reads_back(name: Seq<char>, size: nat)
    requires
        size <= usize::MAX,
        forall|i: int| 0 <= i < name.len() ==> #[trigger] name[i] != '\0',
    ensures
        info_name(file_info(name, size)) == name,
        info_size(file_info(name, size)) == size,
{
    let dec = text::dec_nat(size);
    let tail = seq![' ', '0', '\0', '\0'];
    let all = name.push('\0') + (dec + tail);
    assert(vstd::utf8::is_ascii_chars(seq!['\0']));
    vstd::utf8::is_ascii_chars_encode_utf8(seq!['\0']);
    assert(vstd::utf8::encode_utf8(seq!['\0']) =~= seq![0u8]);
    assert(vstd::utf8::is_ascii_chars(tail));
    vstd::utf8::is_ascii_chars_encode_utf8(tail);
    assert(vstd::utf8::encode_utf8(tail) =~= seq![0x20u8, 0x30u8, 0u8, 0u8]) by {
        assert(tail[0] as u8 == 0x20);
        assert(tail[1] as u8 == 0x30);
        assert(tail[2] as u8 == 0);
        assert(tail[3] as u8 == 0);
    }
    assert(name.push('\0') =~= name + seq!['\0']);
    text::lemma_utf8_add(name, seq!['\0']);
    text::lemma_utf8_add(dec, tail);
    text::lemma_utf8_add(name.push('\0'), dec + tail);
    assert(file_info(name, size) =~= vstd::utf8::encode_utf8(all));
    text::lemma_utf8_reads_back(all);
    text::lemma_split_add(name, dec + tail, '\0');
    text::lemma_split_none(name, '\0');
    text::lemma_dec_nat(size);
    let second = dec + seq![' ', '0'];
    assert forall|i: int| 0 <= i < second.len() implies #[trigger] second[i] != '\0' by {
        if i < dec.len() {
            assert(second[i] == dec[i]);
            assert(text::is_digit(dec[i]));
        }
    }
    let last = Seq::<char>::empty().push('\0');
    assert(dec + tail =~= second.push('\0') + last);
    text::lemma_split_add(second, last, '\0');
    text::lemma_split_none(second, '\0');
    let parts = text::split_at_char(all, '\0');
    assert(parts[0] == name);
    assert(parts[1] == second);
    lemma_first_word_of_digits(dec, seq![' ', '0']);
    text::decimal_reads_back(size, usize::MAX as nat);
}

proof fn lemma_first_word_of_digits(dec: Seq<char>, rest: Seq<char>)
    requires
        text::all_digits(dec),
        rest.len() > 0,
        rest[0] == ' ',
    ensures
        text::first_word_of(dec + rest) == dec,
{
    let s = dec + rest;
    assert(text::is_digit(dec[0]));
    assert forall|i: int| 0 <= i < dec.len() implies !text::white_space(#[trigger] s[i]) by {
        assert(s[i] == dec[i]);
        assert(text::is_digit(dec[i]));
        reveal(text::white_space);
    }
    assert(text::white_space(s[dec.len() as int])) by {
        reveal(text::white_space);
    }
    text::lemma_until_white(s, dec.len() as int);
    assert(s.take(dec.len() as int) =~= dec);
}

/// Carry bytes to a receiver one by one. The result is the receiver and all
/// that it wrote.
pub open spec fn feed_receiver(rx: ReceiverView, bytes: Seq<u8>) -> (ReceiverView, Seq<u8>)
    decreases bytes.len(),
{
    if bytes.len() == 0 {
        (rx, Seq::empty())
    } else {
        let (mid, out) = feed_receiver(rx, bytes.drop_last());
        let (end, action) = mid.step(EventView::Byte(bytes.last()));
        (end, out + action.send)
    }
}

/// Let a sender write on as long as it waits for nothing, at most `n` times.
pub open spec fn settle(tx: SenderView, action: ActionView, n: nat) -> (SenderView, Seq<u8>)
    decreases n,
{
    if n == 0 || !(action.next is Proceed) {
        (tx, action.send)
    } else {
        let (next, then) = tx.step(EventView::Proceed);
        let (end, out) = settle(next, then, (n - 1) as nat);
        (end, action.send + out)
    }
}

/// Carry bytes to a sender one by one. The result is the sender and all that it
/// wrote.
pub open spec fn feed_sender(tx: SenderView, bytes: Seq<u8>) -> (SenderView, Seq<u8>)
    decreases bytes.len(),
{
    if bytes.len() == 0 {
        (tx, Seq::empty())
    } else {
        let (mid, out) = feed_sender(tx, bytes.drop_last());
        let (next, action) = mid.step(EventView::Byte(bytes.last()));
        let (end, more) = settle(next, action, next.data.len() + 2);
        (end, out + more)
    }
}

/// Carry bytes back and forth until both sides are done, for at most `rounds`
/// rounds. The result is the receiver at the end.
pub open spec fn exchange(
    tx: SenderView,
    rx: ReceiverView,
    bytes: Seq<u8>,
    rounds: nat,
) -> Option<ReceiverView>
    decreases rounds,
{
    if rounds == 0 {
        None
    } else {
        let (rx2, answer) = feed_receiver(rx, bytes);
        let (tx2, more) = feed_sender(tx, answer);
        if tx2.phase is Done && rx2.phase is Done {
            Some(rx2)
        } else {
            exchange(tx2, rx2, more, (rounds - 1) as nat)
        }
    }
}

proof fn lemma_feed_receiver_add(rx: ReceiverView, a: Seq<u8>, b: Seq<u8>)
    ensures
        ({
            let (mid, out) = feed_receiver(rx, a);
            let (end, more) = feed_receiver(mid, b);
            feed_receiver(rx, a + b) == (end, out + more)
        }),
    decreases b.len(),
{
    let (mid, out) = feed_receiver(rx, a);
    if b.len() == 0 {
        assert(a + b =~= a);
        assert(out + Seq::<u8>::empty() =~= out);
    } else {
        lemma_feed_receiver_add(rx, a, b.drop_last());
        assert((a + b).drop_last() =~= a + b.drop_last());
        assert((a + b).last() == b.last());
        let (m2, o2) = feed_receiver(mid, b.drop_last());
        let (end, action) = m2.step(EventView::Byte(b.last()));
        assert(out + o2 + action.send =~= out + (o2 + action.send));
    }
}

proof fn lemma_feed_sender_add(tx: SenderView, a: Seq<u8>, b: Seq<u8>)
    ensures
        ({
            let (mid, out) = feed_sender(tx, a);
            let (end, more) = feed_sender(mid, b);
            feed_sender(tx, a + b) == (end, out + more)
        }),
    decreases b.len(),
{
    let (mid, out) = feed_sender(tx, a);
    if b.len() == 0 {
        assert(a + b =~= a);
        assert(out + Seq::<u8>::empty() =~= out);
    } else {
        lemma_feed_sender_add(tx, a, b.drop_last());
        assert((a + b).drop_last() =~= a + b.drop_last());
        assert((a + b).last() == b.last());
        let (m2, o2) = feed_sender(mid, b.drop_last());
        let (next, action) = m2.step(EventView::Byte(b.last()));
        let (end, more) = settle(next, action, next.data.len() + 2);
        assert(out + o2 + more =~= out + (o2 + more));
    }
}

proof fn lemma_receiver_quiet(rx: ReceiverView, bytes: Seq<u8>)
    requires
        rx.listens(),
        rx.header.quiet(bytes),
    ensures
        feed_receiver(rx, bytes) == (
            (ReceiverView { header: rx.header.after(bytes), ..rx }),
            Seq::<u8>::empty(),
        ),
    decreases bytes.len(),
{
    if bytes.len() > 0 {
        let head = bytes.drop_last();
        assert forall|i: int| 0 <= i < head.len() implies #[trigger] rx.header.after(
            head.take(i),
        ).push(head[i]).1 is Partial by {
            assert(head.take(i) =~= bytes.take(i));
            assert(rx.header.after(bytes.take(i)).push(bytes[i]).1 is Partial);
        }
        lemma_receiver_quiet(rx, head);
        let n = bytes.len() - 1;
        assert(bytes.take(n) =~= head);
        assert(rx.header.after(bytes.take(n)).push(bytes[n]).1 is Partial);
        let mid = ReceiverView { header: rx.header.after(head), ..rx };
        assert(mid.step(EventView::Byte(bytes.last())).1.send =~= Seq::<u8>::empty());
        assert(Seq::<u8>::empty() + Seq::<u8>::empty() =~= Seq::<u8>::empty());
    }
}

proof fn lemma_receiver_header(rx: ReceiverView, frame_type: u8, flags: Seq<u8>)
    requires
        rx.listens(),
        rx.header == header_start(),
        flags.len() == 4,
    ensures
        feed_receiver(rx, header_bytes(frame_type, flags)) == (
            rx.on_frame(frame_type).0,
            rx.on_frame(frame_type).1.send,
        ),
{
    let bytes = header_bytes(frame_type, flags);
    header_is_read_back(frame_type, flags);
    lemma_receiver_quiet(rx, bytes.drop_last());
    let mid = ReceiverView { header: rx.header.after(bytes.drop_last()), ..rx };
    let (end, action) = mid.step(EventView::Byte(bytes.last()));
    assert((end, action) == rx.on_frame(frame_type));
    assert(Seq::<u8>::empty() + action.send =~= action.send);
}

proof fn lemma_receiver_sub_quiet(rx: ReceiverView, bytes: Seq<u8>)
    requires
        rx.phase is Info || rx.phase is Data,
        rx.subpacket.quiet(bytes),
    ensures
        feed_receiver(rx, bytes) == (
            (ReceiverView { subpacket: rx.subpacket.after(bytes), ..rx }),
            Seq::<u8>::empty(),
        ),
    decreases bytes.len(),
{
    if bytes.len() > 0 {
        let head = bytes.drop_last();
        assert forall|i: int| 0 <= i < head.len() implies #[trigger] rx.subpacket.after(
            head.take(i),
        ).push(head[i]).1 is Partial by {
            assert(head.take(i) =~= bytes.take(i));
            assert(rx.subpacket.after(bytes.take(i)).push(bytes[i]).1 is Partial);
        }
        lemma_receiver_sub_quiet(rx, head);
        let n = bytes.len() - 1;
        assert(bytes.take(n) =~= head);
        assert(rx.subpacket.after(bytes.take(n)).push(bytes[n]).1 is Partial);
        let mid = ReceiverView { subpacket: rx.subpacket.after(head), ..rx };
        assert(mid.step(EventView::Byte(bytes.last())).1.send =~= Seq::<u8>::empty());
        assert(Seq::<u8>::empty() + Seq::<u8>::empty() =~= Seq::<u8>::empty());
    }
}

proof fn lemma_receiver_subpacket(rx: ReceiverView, data: Seq<u8>, frame_end: u8)
    requires
        rx.phase is Info || rx.phase is Data,
        rx.subpacket == subpacket_start(),
        is_frame_end(frame_end),
    ensures
        feed_receiver(rx, subpacket_bytes(data, frame_end)) == (
            rx.on_subpacket(data, frame_end).0,
            rx.on_subpacket(data, frame_end).1.send,
        ),
{
    let bytes = subpacket_bytes(data, frame_end);
    subpacket_is_read_back(data, frame_end);
    lemma_receiver_sub_quiet(rx, bytes.drop_last());
    let mid = ReceiverView { subpacket: rx.subpacket.after(bytes.drop_last()), ..rx };
    let (end, action) = mid.step(EventView::Byte(bytes.last()));
    assert((end, action) == rx.on_subpacket(data, frame_end));
    assert(Seq::<u8>::empty() + action.send =~= action.send);
}

proof fn lemma_sender_quiet(tx: SenderView, bytes: Seq<u8>)
    requires
        tx.listens(),
        tx.header.quiet(bytes),
    ensures
        feed_sender(tx, bytes) == (
            (SenderView { header: tx.header.after(bytes), ..tx }),
            Seq::<u8>::empty(),
        ),
    decreases bytes.len(),
{
    if bytes.len() > 0 {
        let head = bytes.drop_last();
        assert forall|i: int| 0 <= i < head.len() implies #[trigger] tx.header.after(
            head.take(i),
        ).push(head[i]).1 is Partial by {
            assert(head.take(i) =~= bytes.take(i));
            assert(tx.header.after(bytes.take(i)).push(bytes[i]).1 is Partial);
        }
        lemma_sender_quiet(tx, head);
        let n = bytes.len() - 1;
        assert(bytes.take(n) =~= head);
        assert(tx.header.after(bytes.take(n)).push(bytes[n]).1 is Partial);
        let mid = SenderView { header: tx.header.after(head), ..tx };
        let (next, action) = mid.step(EventView::Byte(bytes.last()));
        assert(action.send =~= Seq::<u8>::empty());
        assert(Seq::<u8>::empty() + Seq::<u8>::empty() =~= Seq::<u8>::empty());
    }
}

proof fn lemma_sender_header(tx: SenderView, frame_type: u8, flags: Seq<u8>)
    requires
        tx.listens(),
        tx.header == header_start(),
        flags.len() == 4,
    ensures
        feed_sender(tx, header_bytes(frame_type, flags)) == settle(
            tx.on_frame(frame_type, flags).0,
            tx.on_frame(frame_type, flags).1,
            tx.data.len() + 2,
        ),
{
    let bytes = header_bytes(frame_type, flags);
    header_is_read_back(frame_type, flags);
    lemma_sender_quiet(tx, bytes.drop_last());
    let mid = SenderView { header: tx.header.after(bytes.drop_last()), ..tx };
    let (next, action) = mid.step(EventView::Byte(bytes.last()));
    assert((next, action) == tx.on_frame(frame_type, flags));
    let (end, more) = settle(next, action, next.data.len() + 2);
    assert(Seq::<u8>::empty() + more =~= more);
}

/// All that a sender writes from `offset` on until it waits again.
pub open spec fn stream_bytes(data: Seq<u8>, offset: int) -> Seq<u8>
    decreases data.len() - offset,
{
    if 0 <= offset < data.len() {
        let (chunk, frame_end) = chunk_at(data, offset);
        subpacket_bytes(chunk, frame_end) + stream_bytes(data, offset + chunk.len())
    } else {
        header_bytes(ZEOF, modem::le_bytes(data.len() as u32))
    }
}

proof fn lemma_settle_stream(tx: SenderView, action: ActionView, offset: usize, n: nat)
    requires
        tx.phase == (SendPhase::Stream { offset }),
        action.next is Proceed,
        offset <= tx.data.len() <= usize::MAX,
        n >= tx.data.len() - offset + 1,
    ensures
        settle(tx, action, n) == (
            (SenderView { phase: SendPhase::AwaitEnd, subpacket_out: false, ..tx }),
            action.send + stream_bytes(tx.data, offset as int),
        ),
    decreases n,
{
    let (next, then) = tx.step(EventView::Proceed);
    if offset < tx.data.len() {
        let (chunk, frame_end) = chunk_at(tx.data, offset as int);
        let end = (offset + chunk.len()) as usize;
        assert(next.phase == (SendPhase::Stream { offset: end }));
        lemma_settle_stream(next, then, end, (n - 1) as nat);
        assert(stream_bytes(tx.data, offset as int) == then.send + stream_bytes(
            tx.data,
            end as int,
        ));
    } else {
        reveal_with_fuel(settle, 2);
        assert(!(then.next is Proceed));
    }
}

proof fn lemma_receive_stream(rx: ReceiverView, data: Seq<u8>, offset: int)
    requires
        0 <= offset < data.len() <= usize::MAX,
        rx.phase is Data,
        rx.header == header_start(),
        rx.subpacket == subpacket_start(),
        rx.received == data.take(offset),
    ensures
        feed_receiver(rx, stream_bytes(data, offset)) == (
            (ReceiverView { phase: ReceivePhase::AwaitFinish, received: data, ..rx }),
            header_bytes(ZRINIT, receiver_flags()),
        ),
    decreases data.len() - offset,
{
    let (chunk, frame_end) = chunk_at(data, offset);
    let end = offset + chunk.len();
    lemma_receiver_subpacket(rx, chunk, frame_end);
    let (mid, action) = rx.on_subpacket(chunk, frame_end);
    assert(action.send =~= Seq::<u8>::empty());
    assert(rx.received + chunk =~= data.take(end));
    lemma_feed_receiver_add(rx, subpacket_bytes(chunk, frame_end), stream_bytes(data, end));
    if end < data.len() {
        lemma_receive_stream(mid, data, end);
    } else {
        assert(data.take(end) =~= data);
        modem::lemma_le_bytes(data.len() as u32);
        lemma_receiver_header(mid, ZEOF, modem::le_bytes(data.len() as u32));
    }
    assert(Seq::<u8>::empty() + header_bytes(ZRINIT, receiver_flags()) =~= header_bytes(
        ZRINIT,
        receiver_flags(),
    ));
}

/// The sender offers its file as soon as the receiver is ready.
proof fn lemma_offer(name: Seq<char>, data: Seq<u8>)
    ensures
        feed_sender(sender_start(name, data), header_bytes(ZRINIT, receiver_flags())) == (
            offering(name, data),
            offer_bytes(name, data),
        ),
{
    let tx0 = sender_start(name, data);
    lemma_sender_header(tx0, ZRINIT, receiver_flags());
    let (tx, action) = tx0.on_frame(ZRINIT, receiver_flags());
    let (tx1, action1) = tx.step(EventView::Proceed);
    assert(tx1 =~= offering(name, data));
    assert(!(action1.next is Proceed));
    reveal_with_fuel(settle, 3);
}

/// A sender that has offered its file.
spec fn offering(name: Seq<char>, data: Seq<u8>) -> SenderView {
    SenderView { phase: SendPhase::AwaitPos, subpacket_out: true, ..sender_start(name, data) }
}

/// What a sender offers its file with.
spec fn offer_bytes(name: Seq<char>, data: Seq<u8>) -> Seq<u8> {
    header_bytes(ZFILE, no_flags()) + subpacket_bytes(file_info(name, data.len()), ZCRCW)
}

/// A receiver that has asked for the data.
spec fn asking(name: Seq<char>, size: usize) -> ReceiverView {
    ReceiverView {
        name,
        expected_size: size,
        phase: ReceivePhase::AwaitData,
        ..receiver_start()
    }
}

/// The receiver takes the offer and asks for the data.
proof fn lemma_take_offer(name: Seq<char>, data: Seq<u8>)
    requires
        data.len() <= usize::MAX,
        forall|i: int| 0 <= i < name.len() ==> #[trigger] name[i] != '\0',
    ensures
        feed_receiver(
            receiver_start(),
            header_bytes(ZRQINIT, no_flags()) + offer_bytes(name, data),
        ) == (
            asking(name, data.len() as usize),
            header_bytes(ZRINIT, receiver_flags()) + header_bytes(ZRPOS, no_flags()),
        ),
{
    let rx0 = receiver_start();
    let info = file_info(name, data.len());
    let file = header_bytes(ZFILE, no_flags());
    let sub = subpacket_bytes(info, ZCRCW);
    lemma_receiver_header(rx0, ZRQINIT, no_flags());
    lemma_receiver_header(rx0, ZFILE, no_flags());
    let rx_info = rx0.to(ReceivePhase::Info);
    assert(rx0.on_frame(ZFILE).0 == rx_info);
    assert(rx0.on_frame(ZFILE).1.send =~= Seq::<u8>::empty());
    lemma_receiver_subpacket(rx_info, info, ZCRCW);
    file_info_reads_back(name, data.len());
    let pos = header_bytes(ZRPOS, no_flags());
    assert(rx_info.on_subpacket(info, ZCRCW).0 =~= asking(name, data.len() as usize));
    assert(rx_info.on_subpacket(info, ZCRCW).1.send == pos);
    lemma_feed_receiver_add(rx0, file, sub);
    assert(Seq::<u8>::empty() + pos =~= pos);
    assert(rx0.on_frame(ZRQINIT).0 =~= rx0);
    lemma_feed_receiver_add(rx0, header_bytes(ZRQINIT, no_flags()), file + sub);
}

/// The sender passes over the repeated readiness and streams the data.
proof fn lemma_stream(name: Seq<char>, data: Seq<u8>)
    requires
        data.len() <= usize::MAX,
    ensures
        feed_sender(
            offering(name, data),
            header_bytes(ZRINIT, receiver_flags()) + header_bytes(ZRPOS, no_flags()),
        ) == (
            sender_start(name, data).to(SendPhase::AwaitEnd),
            header_bytes(ZDATA, no_flags()) + stream_bytes(data, 0),
        ),
{
    let tx = offering(name, data);
    let ready = header_bytes(ZRINIT, receiver_flags());
    let pos = header_bytes(ZRPOS, no_flags());
    lemma_sender_header(tx, ZRINIT, receiver_flags());
    let (same, action) = tx.on_frame(ZRINIT, receiver_flags());
    assert(same == tx);
    assert(action.send =~= Seq::<u8>::empty());
    lemma_sender_header(tx, ZRPOS, no_flags());
    lemma_feed_sender_add(tx, ready, pos);
    assert(modem::from_le(no_flags()) == 0) by {
        reveal(modem::from_le);
        assert((0u8 as u32) | ((0u8 as u32) << 8) | ((0u8 as u32) << 16) | ((0u8 as u32) << 24)
            == 0) by (bit_vector);
    }
    let (tx_stream, start) = tx.on_frame(ZRPOS, no_flags());
    assert(tx_stream.phase == (SendPhase::Stream { offset: 0 }));
    lemma_settle_stream(tx_stream, start, 0, data.len() + 2);
    let stream = header_bytes(ZDATA, no_flags()) + stream_bytes(data, 0);
    assert(Seq::<u8>::empty() + stream =~= stream);
    assert(SenderView { phase: SendPhase::AwaitEnd, subpacket_out: false, ..tx_stream }
        =~= sender_start(name, data).to(SendPhase::AwaitEnd));
}

/// The receiver takes the data.
proof fn lemma_take_stream(name: Seq<char>, data: Seq<u8>)
    requires
        0 < data.len() <= usize::MAX,
    ensures
        feed_receiver(
            asking(name, data.len() as usize),
            header_bytes(ZDATA, no_flags()) + stream_bytes(data, 0),
        ) == (
            ReceiverView {
                received: data,
                phase: ReceivePhase::AwaitFinish,
                ..asking(name, data.len() as usize)
            },
            header_bytes(ZRINIT, receiver_flags()),
        ),
{
    let rx = asking(name, data.len() as usize);
    lemma_receiver_header(rx, ZDATA, no_flags());
    let rx_data = rx.to(ReceivePhase::Data);
    assert(rx.on_frame(ZDATA).0 == rx_data);
    assert(rx.on_frame(ZDATA).1.send =~= Seq::<u8>::empty());
    assert(data.take(0) =~= Seq::<u8>::empty());
    lemma_receive_stream(rx_data, data, 0);
    lemma_feed_receiver_add(rx, header_bytes(ZDATA, no_flags()), stream_bytes(data, 0));
    let ready = header_bytes(ZRINIT, receiver_flags());
    assert(Seq::<u8>::empty() + ready =~= ready);
}

proof fn lemma_bye(rx: ReceiverView)
    requires
        rx.phase is Closing,
    ensures
        feed_receiver(rx, seq![0x4Fu8, 0x4Fu8]) == (
            rx.to(ReceivePhase::Done),
            Seq::<u8>::empty(),
        ),
{
    let bye = seq![0x4Fu8, 0x4Fu8];
    assert(bye.drop_last() =~= seq![0x4Fu8]);
    assert(seq![0x4Fu8].drop_last() =~= Seq::<u8>::empty());
    reveal_with_fuel(feed_receiver, 3);
    let (a, x) = rx.step(EventView::Byte(0x4F));
    let (b, y) = a.step(EventView::Byte(0x4F));
    assert(x.send =~= Seq::<u8>::empty());
    assert(y.send =~= Seq::<u8>::empty());
    assert(Seq::<u8>::empty() + Seq::<u8>::empty() =~= Seq::<u8>::empty());
}

/// Over a line that loses nothing, a receiver ends up with exactly the name and
/// the data that the sender was given.
///
/// The name holds no zero character, and there is at least one byte of data: a
/// sender of an empty file announces data and sends none, and the receiver
/// waits for it.
pub proof fn transfer_delivers_the_file(name: Seq<char>, data: Seq<u8>)
    requires
        0 < data.len() <= usize::MAX,
        forall|i: int| 0 <= i < name.len() ==> #[trigger] name[i] != '\0',
    ensures
        ({
            let invitation = header_bytes(ZRQINIT, no_flags());
            let ready = header_bytes(ZRINIT, receiver_flags());
            let (tx, offer) = feed_sender(sender_start(name, data), ready);
            let end = exchange(tx, receiver_start(), invitation + offer, 4);
            end is Some && end->0.received == data && end->0.name == name
        }),
{
    lemma_offer(name, data);
    lemma_take_offer(name, data);
    lemma_stream(name, data);
    lemma_take_stream(name, data);
    let ready = header_bytes(ZRINIT, receiver_flags());
    let pos = header_bytes(ZRPOS, no_flags());
    let first = header_bytes(ZRQINIT, no_flags()) + offer_bytes(name, data);
    let stream = header_bytes(ZDATA, no_flags()) + stream_bytes(data, 0);
    let tx1 = offering(name, data);
    let tx2 = sender_start(name, data).to(SendPhase::AwaitEnd);
    let rx1 = asking(name, data.len() as usize);
    let rx2 = ReceiverView { received: data, phase: ReceivePhase::AwaitFinish, ..rx1 };
    lemma_goodbyes(tx2, rx2);
    lemma_round(tx1, receiver_start(), first, ready + pos, tx2, rx1, stream, 4);
    lemma_round(tx2, rx1, stream, ready, tx2.to(SendPhase::AwaitFin), rx2, header_bytes(ZFIN, no_flags()), 3);
}

proof fn lemma_round(
    tx: SenderView,
    rx: ReceiverView,
    bytes: Seq<u8>,
    answer: Seq<u8>,
    tx2: SenderView,
    rx2: ReceiverView,
    more: Seq<u8>,
    rounds: nat,
)
    requires
        rounds > 0,
        feed_receiver(rx, bytes) == (rx2, answer),
        feed_sender(tx, answer) == (tx2, more),
    ensures
        exchange(tx, rx, bytes, rounds) == (if tx2.phase is Done && rx2.phase is Done {
            Some(rx2)
        } else {
            exchange(tx2, rx2, more, (rounds - 1) as nat)
        }),
{
}

/// Behind a complete file both sides say goodbye.
proof fn lemma_goodbyes(tx: SenderView, rx: ReceiverView)
    requires
        tx.phase is AwaitEnd,
        !tx.subpacket_out,
        tx.header == header_start(),
        rx.phase is AwaitFinish,
        rx.header == header_start(),
    ensures
        ({
            let fin = header_bytes(ZFIN, no_flags());
            &&& feed_sender(tx, header_bytes(ZRINIT, receiver_flags())) == (
                tx.to(SendPhase::AwaitFin),
                fin,
            )
            &&& exchange(tx.to(SendPhase::AwaitFin), rx, fin, 2) == Some(
                rx.to(ReceivePhase::Done),
            )
        }),
{
    let fin = header_bytes(ZFIN, no_flags());
    let bye = seq![0x4Fu8, 0x4Fu8];
    let tx3 = tx.to(SendPhase::AwaitFin);
    lemma_sender_header(tx, ZRINIT, receiver_flags());
    assert(tx.on_frame(ZRINIT, receiver_flags()).0 =~= tx3);
    let rx3 = rx.to(ReceivePhase::Closing);
    lemma_receiver_header(rx, ZFIN, no_flags());
    assert(rx.on_frame(ZFIN).0 =~= rx3);
    let tx4 = tx3.to(SendPhase::Done);
    lemma_sender_header(tx3, ZFIN, no_flags());
    assert(tx3.on_frame(ZFIN, no_flags()).0 =~= tx4);
    assert(feed_sender(tx3, fin) == (tx4, bye));
    lemma_bye(rx3);
    let rx4 = rx3.to(ReceivePhase::Done);
    assert(rx4 =~= rx.to(ReceivePhase::Done));
    assert(feed_sender(tx4, Seq::<u8>::empty()) == (tx4, Seq::<u8>::empty()));
    lemma_round(tx3, rx, fin, fin, tx4, rx3, bye, 2);
    lemma_round(tx4, rx3, bye, Seq::empty(), tx4, rx4, Seq::empty(), 1);
}

} // verus!
