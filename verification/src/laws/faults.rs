//! What happens to a transfer that goes wrong.
use vstd::prelude::*;
use vstd::string::*;

use crate::modem::xmodem;
use crate::modem::ymodem;
use crate::modem::zmodem;
use crate::modem::{ActionView, EventView, NextView};
use crate::text;

verus! {

/// Whether an action ends a transfer with these words and puts nothing on the
/// line.
pub open spec fn ends_with(action: ActionView, why: Seq<char>) -> bool {
    action.send.len() == 0 && action.next == NextView::Failed(why)
}

// ---------------------------------------------------------------------------
// XMODEM
// ---------------------------------------------------------------------------

/// An XMODEM sender that hears nothing in time, or cannot read or write, says so
/// and sends nothing more.
pub proof fn xmodem_sender_fails(tx: xmodem::SenderView, e: Seq<char>)
    ensures
        tx.phase is Start ==> {
            let (next, action) = tx.step(EventView::Deadline);
            next.phase is Failed && ends_with(
                action,
                "XMODEM timeout waiting for receiver start signal ('C' or NAK)"@,
            )
        },
        tx.phase is Block || tx.phase is Eot ==> {
            let block = tx.phase is Block;
            &&& tx.step(EventView::Timeout).0.phase is Failed && ends_with(
                tx.step(EventView::Timeout).1,
                "Timeout reading byte"@,
            )
            &&& tx.step(EventView::ReadFailed(e)).0.phase is Failed && ends_with(
                tx.step(EventView::ReadFailed(e)).1,
                "I/O error reading byte: "@ + e,
            )
            &&& tx.step(EventView::WriteFailed(e)).0.phase is Failed && ends_with(
                tx.step(EventView::WriteFailed(e)).1,
                if block {
                    "XMODEM write error: "@ + e
                } else {
                    "XMODEM write EOT error: "@ + e
                },
            )
            &&& tx.step(EventView::FlushFailed(e)).0.phase is Failed && ends_with(
                tx.step(EventView::FlushFailed(e)).1,
                if block {
                    "XMODEM flush error: "@ + e
                } else {
                    "XMODEM flush EOT error: "@ + e
                },
            )
        },
{
}

/// A receiver that cancels, and one that does not take a block or the end ten
/// times, ends the transfer.
pub proof fn xmodem_sender_is_refused(
    tx: xmodem::SenderView,
    use_crc: bool,
    offset: usize,
    number: u8,
    retries: u32,
    b: u8,
)
    requires
        tx.phase == (xmodem::SendPhase::Block { use_crc, offset, number, retries }),
        retries < 10,
        b != 6,
    ensures
        b == 0x18 ==> ends_with(
            tx.step(EventView::Byte(b)).1,
            "XMODEM transfer cancelled by receiver"@,
        ),
        b != 0x18 && retries == 9 ==> ends_with(
            tx.step(EventView::Byte(b)).1,
            "XMODEM block "@ + text::dec_nat(number as nat) + " failed after 10 retries"@,
        ),
        ends_with(
            tx.to(xmodem::SendPhase::Eot { retries: 9 }).step(EventView::Byte(b)).1,
            "XMODEM EOT not acknowledged"@,
        ),
        ends_with(
            tx.to(xmodem::SendPhase::Start).step(EventView::Byte(0x18)).1,
            "XMODEM cancelled by receiver"@,
        ),
{
}

/// An XMODEM receiver says why it ends: a sender that cancels or never starts, a
/// line that cannot be read or written.
pub proof fn xmodem_receiver_fails(rx: xmodem::ReceiverView, e: Seq<char>, header: u8)
    ensures
        rx.phase is Header || rx.phase is Start ==> ends_with(
            rx.step(EventView::Byte(0x18)).1,
            "XMODEM cancelled by sender"@,
        ),
        ends_with(
            rx.to(xmodem::ReceivePhase::Start { attempts: 10 }).step(EventView::Timeout).1,
            "XMODEM receive timeout waiting for sender"@,
        ),
        rx.phase is Start ==> ends_with(
            rx.step(EventView::WriteFailed(e)).1,
            "XMODEM write error: "@ + e,
        ),
        rx.phase is Header ==> ends_with(rx.step(EventView::Timeout).1, "Timeout reading byte"@)
            && ends_with(
            rx.step(EventView::ReadFailed(e)).1,
            "I/O error reading byte: "@ + e,
        ),
        ends_with(
            rx.to(xmodem::ReceivePhase::Body { header, first: true }).step(
                EventView::ReadFailed(e),
            ).1,
            "XMODEM read block error: "@ + e,
        ),
        ({
            let (next, action) = rx.to(xmodem::ReceivePhase::Body { header, first: false }).step(
                EventView::ReadFailed(e),
            );
            next.phase is Header && action.send.len() == 0 && action.next == (NextView::ReadByte {
                timeout_ms: 3000,
            })
        }),
{
}

/// What is wrong with the first block is told.
pub proof fn xmodem_blocks_are_judged(expected: u8, got: u8)
    ensures
        xmodem::verdict_error(xmodem::Verdict::BadComplement, expected, got)
            == "XMODEM block number complement mismatch"@,
        xmodem::verdict_error(xmodem::Verdict::BadCheck, expected, got)
            == "XMODEM checksum/CRC validation failed"@,
        xmodem::verdict_error(xmodem::Verdict::OutOfSync, expected, got)
            == "XMODEM block synchronization lost (expected "@ + text::dec_nat(expected as nat)
            + ", got "@ + text::dec_nat(got as nat) + ")"@,
{
}

/// A transfer that has ended stays ended.
pub proof fn ended_transfers_stay_ended(
    tx: xmodem::SenderView,
    rx: xmodem::ReceiverView,
    ty: ymodem::SenderView,
    ry: ymodem::ReceiverView,
    event: EventView,
)
    ensures
        tx.phase is Done ==> tx.step(event).0 == tx && tx.step(event).1.next == NextView::Done,
        tx.phase is Failed ==> tx.step(event).0 == tx && ends_with(
            tx.step(event).1,
            "XMODEM transfer has ended"@,
        ),
        rx.phase is Done ==> rx.step(event).0 == rx && rx.step(event).1.next == NextView::Done,
        rx.phase is Failed ==> rx.step(event).0 == rx && ends_with(
            rx.step(event).1,
            "XMODEM transfer has ended"@,
        ),
        ty.phase is Done ==> ty.step(event).0 == ty && ty.step(event).1.next == NextView::Done,
        ty.phase is Failed ==> ty.step(event).0 == ty && ends_with(
            ty.step(event).1,
            "YMODEM transfer has ended"@,
        ),
        ry.phase is Done ==> ry.step(event).0 == ry && ry.step(event).1.next == NextView::Done,
        ry.phase is Failed ==> ry.step(event).0 == ry && ends_with(
            ry.step(event).1,
            "YMODEM transfer has ended"@,
        ),
{
}

// ---------------------------------------------------------------------------
// YMODEM
// ---------------------------------------------------------------------------

/// A YMODEM sender says why it ends: no answer, a wrong answer, a cancelled
/// transfer, or a line that cannot be read or written.
pub proof fn ymodem_sender_fails(tx: ymodem::SenderView, e: Seq<char>, b: u8)
    ensures
        tx.phase is Start ==> ends_with(
            tx.step(EventView::Deadline).1,
            "YMODEM timeout waiting for "@ + ("0x"@ + text::hex2(0x43)),
        ) && ends_with(tx.step(EventView::Byte(0x18)).1, "YMODEM cancelled by receiver"@),
        tx.phase is HeaderAck && b != 6 ==> ends_with(
            tx.step(EventView::Byte(b)).1,
            "YMODEM header ACK missing (got "@ + ("0x"@ + text::hex2(b)) + ")"@,
        ),
        tx.phase is HeaderAck ==> ends_with(
            tx.step(EventView::WriteFailed(e)).1,
            "YMODEM header write error: "@ + e,
        ) && ends_with(
            tx.step(EventView::FlushFailed(e)).1,
            "YMODEM header flush error: "@ + e,
        ),
        tx.phase is DataStart && b != 0x43 ==> ends_with(
            tx.step(EventView::Byte(b)).1,
            "YMODEM data start 'C' missing (got "@ + ("0x"@ + text::hex2(b)) + ")"@,
        ),
        tx.phase is Block ==> ends_with(
            tx.step(EventView::WriteFailed(e)).1,
            "YMODEM write error: "@ + e,
        ) && ends_with(tx.step(EventView::FlushFailed(e)).1, "YMODEM flush error: "@ + e)
            && ends_with(
            tx.step(EventView::Byte(0x18)).1,
            "YMODEM transfer cancelled by receiver"@,
        ),
        tx.phase is SecondEot && b != 6 ==> ends_with(
            tx.step(EventView::Byte(b)).1,
            "YMODEM EOT second ACK missing"@,
        ),
        tx.phase is NullAck ==> ends_with(
            tx.step(EventView::WriteFailed(e)).1,
            "YMODEM null block write error: "@ + e,
        ),
        tx.phase is HeaderAck || tx.phase is DataStart || tx.phase is Block || tx.phase is FirstEot
            || tx.phase is SecondEot ==> ends_with(
            tx.step(EventView::Timeout).1,
            "Timeout reading byte"@,
        ) && ends_with(
            tx.step(EventView::ReadFailed(e)).1,
            "I/O error reading byte: "@ + e,
        ),
        tx.phase is Batch || tx.phase is NullAck ==> tx.step(EventView::Timeout).0.phase is Done
            && tx.step(EventView::ReadFailed(e)).0.phase is Done,
{
}

/// A YMODEM receiver says why it ends: no header after ten calls, or a line that
/// cannot be read.
pub proof fn ymodem_receiver_fails(rx: ymodem::ReceiverView, e: Seq<char>, header: u8)
    ensures
        ends_with(
            rx.to(ymodem::ReceivePhase::Start { attempts: 10 }).step(EventView::Timeout).1,
            "YMODEM timeout waiting for Block 0 header"@,
        ),
        rx.phase is HeaderBody ==> ends_with(
            rx.step(EventView::ReadFailed(e)).1,
            "YMODEM header read error: "@ + e,
        ),
        rx.phase is Body ==> ends_with(
            rx.step(EventView::ReadFailed(e)).1,
            "YMODEM read error: "@ + e,
        ),
        rx.phase is Header || rx.phase is SecondEot ==> ends_with(
            rx.step(EventView::Timeout).1,
            "Timeout reading byte"@,
        ) && ends_with(
            rx.step(EventView::ReadFailed(e)).1,
            "I/O error reading byte: "@ + e,
        ),
        rx.phase is Close ==> rx.step(EventView::Timeout).0.phase is Done && rx.step(
            EventView::ReadFailed(e),
        ).0.phase is Done,
{
}

/// A name and a size fit into a header where they take at most a hundred and
/// twenty-eight bytes with the zero between them.
pub proof fn ymodem_headers_have_room(name: Seq<char>, size: nat)
    ensures
        ymodem::header_fits(name, size) <==> vstd::utf8::encode_utf8(name).len() + 1
            + vstd::utf8::encode_utf8(text::dec_nat(size)).len() <= 128,
{
}

// ---------------------------------------------------------------------------
// ZMODEM
// ---------------------------------------------------------------------------

/// A header begins behind 24 and `C`; the nine bytes that follow, unescaped, are
/// the frame.
pub proof fn zmodem_headers_are_found(r: zmodem::HeaderReaderView, b: u8)
    ensures
        r.stage is Hunt ==> r.push(b).1 is Partial && (r.push(b).0.stage is Kind <==> b == 24) && (
        r.push(b).0.stage is Hunt <==> b != 24) && r.push(b).0.raw == r.raw,
        r.stage is Kind ==> r.push(b).1 is Partial && (r.push(b).0.stage is Body <==> b == 0x43) && (
        r.push(b).0.stage is Hunt <==> b != 0x43) && r.push(b).0.raw == r.raw,
        r.stage is Body && zmodem::unescape(r.stage->after_zdle, b) is None ==> r.push(b).1
            is Partial && r.push(b).0.raw == r.raw && r.push(b).0.stage == (
        zmodem::HeaderStage::Body { after_zdle: true }),
        r.stage is Body ==> (zmodem::unescape(r.stage->after_zdle, b) matches Some((v, _)) ==> {
            &&& r.raw.len() < 8 ==> r.push(b).1 is Partial && r.push(b).0.raw == r.raw.push(v)
                && r.push(b).0.stage == (zmodem::HeaderStage::Body { after_zdle: false })
            &&& r.raw.len() == 8 ==> r.push(b).1 == zmodem::header_of(r.raw.push(v))
                && r.push(b).0.raw.len() == 0 && r.push(b).0.stage is Hunt
        }),
{
}

/// Data go on to an escaped end, which four bytes of CRC-32 follow.
pub proof fn zmodem_subpackets_are_found(r: zmodem::SubpacketReaderView, b: u8)
    ensures
        zmodem::unescape(r.after_zdle, b) matches Some((v, ends)) ==> {
            let (next, item) = r.push(b);
            &&& r.frame_end is None && !ends ==> item is Partial && next.data == r.data.push(v)
                && next.frame_end is None
            &&& r.frame_end is None && ends ==> item is Partial && next.data == r.data
                && next.frame_end == Some(v)
            &&& r.frame_end is Some && r.crc.len() < 3 ==> item is Partial && next.crc
                == r.crc.push(v) && next.data == r.data
            &&& r.frame_end is Some && r.crc.len() == 3 ==> !(item is Partial) && next.data.len()
                == 0
        },
        zmodem::unescape(r.after_zdle, b) is None ==> r.push(b).1 is Partial && r.push(b).0.data
            == r.data && r.push(b).0.after_zdle,
{
}

/// What is heard of a header: a broken one is lost, and so is one that does not
/// come in time or cannot be read.
pub proof fn zmodem_headers_are_lost(r: zmodem::HeaderReaderView, b: u8, e: Seq<char>)
    ensures
        r.push(b).1 is Broken ==> r.listen(EventView::Byte(b)).1 == zmodem::HeardView::Lost(
            "ZMODEM header CRC-32 mismatch"@,
        ),
        r.push(b).1 is Partial ==> r.listen(EventView::Byte(b)).1 is Silence,
        r.push(b).1 matches zmodem::HeaderView::Frame { frame_type, flags } ==> r.listen(
            EventView::Byte(b),
        ).1 == (zmodem::HeardView::Frame { frame_type, flags }),
        r.listen(EventView::Byte(b)).0 == r.push(b).0,
        r.stage is Hunt ==> r.listen(EventView::Deadline).1 == zmodem::HeardView::Lost(
            "ZMODEM header timeout"@,
        ),
        r.stage is Kind ==> r.listen(EventView::ReadFailed(e)).1 == zmodem::HeardView::Lost(e),
        r.stage is Body ==> r.listen(EventView::ReadFailed(e)).1 == zmodem::HeardView::Lost(
            "I/O error: "@ + e,
        ),
{
}

/// A ZMODEM sender that loses a header, gets a wrong frame or cannot write says
/// so; one that only waits for the last word says goodbye.
pub proof fn zmodem_sender_fails(tx: zmodem::SenderView, kind: u8, flags: Seq<u8>, e: Seq<char>)
    ensures
        tx.phase is AwaitInit && kind != 1 ==> ends_with(
            tx.on_frame(kind, flags).1,
            "expected ZRINIT, got frame type "@ + text::dec_nat(kind as nat),
        ),
        tx.phase is AwaitPos && kind != 0 && kind != 1 && kind != 9 ==> ends_with(
            tx.on_frame(kind, flags).1,
            "expected ZRPOS, got frame type "@ + text::dec_nat(kind as nat),
        ),
        !(tx.phase is Done) && !(tx.phase is Failed) ==> ends_with(
            tx.step(EventView::WriteFailed(e)).1,
            if tx.subpacket_out {
                "ZMODEM subpacket write error: "@ + e
            } else {
                "ZMODEM header write error: "@ + e
            },
        ),
        (tx.phase is AwaitInit || tx.phase is AwaitPos || tx.phase is AwaitEnd) && tx.header.stage
            is Hunt ==> tx.step(EventView::Deadline).0.phase is Failed && ends_with(
            tx.step(EventView::Deadline).1,
            "ZMODEM header timeout"@,
        ),
        tx.phase is AwaitFin && tx.header.stage is Hunt ==> !(tx.step(EventView::Deadline).0.phase
            is Failed) && tx.step(EventView::Deadline).1.send == seq![0x4Fu8, 0x4F],
{
}

/// A ZMODEM receiver that loses a header or a subpacket, gets a wrong frame or
/// cannot write says so; one that has everything is done.
pub proof fn zmodem_receiver_fails(rx: zmodem::ReceiverView, kind: u8, b: u8, e: Seq<char>)
    ensures
        rx.phase is AwaitData && kind != 10 ==> ends_with(
            rx.on_frame(kind).1,
            "expected ZDATA, got "@ + text::dec_nat(kind as nat),
        ),
        !(rx.phase is Done) && !(rx.phase is Failed) ==> ends_with(
            rx.step(EventView::WriteFailed(e)).1,
            "ZMODEM header write error: "@ + e,
        ),
        (rx.phase is Info || rx.phase is Data) ==> ends_with(
            rx.step(EventView::ReadFailed(e)).1,
            "I/O error: "@ + e,
        ),
        (rx.phase is Info || rx.phase is Data) && rx.subpacket.push(b).1 is Broken ==> ends_with(
            rx.step(EventView::Byte(b)).1,
            "ZMODEM subpacket CRC-32 mismatch"@,
        ),
        (rx.phase is AwaitFile || rx.phase is AwaitData || rx.phase is AwaitNext) && rx.header.stage
            is Hunt ==> ends_with(rx.step(EventView::Deadline).1, "ZMODEM header timeout"@),
        rx.phase is AwaitFinish && rx.header.stage is Hunt ==> rx.step(EventView::Deadline).0.phase
            is Done,
        rx.phase is Leaving ==> rx.step(EventView::Proceed).0.phase is Done,
        rx.phase is Closing ==> rx.step(EventView::Byte(b)).0.phase is Done,
        rx.step(EventView::Deadline).0.received == rx.received,
{
}

} // verus!
