//! What stands on the line in a file transfer, byte by byte.
use vstd::prelude::*;
use vstd::string::*;

use crate::modem;
use crate::modem::{xmodem, ymodem, zmodem};
use crate::modem::{
    ActionView, EventView, FileTransferProtocol, NextView, Progress, ReceiveMachine, SendMachine,
};
use crate::text;

verus! {

// ---------------------------------------------------------------------------
// Checks
// ---------------------------------------------------------------------------

/// One place to the left in a remainder by x^16 + x^12 + x^5 + 1.
pub open spec fn times_x16(r: int) -> int {
    if 2 * r >= 65536 {
        ((2 * r - 65536) as u16 ^ 4129u16) as int
    } else {
        2 * r
    }
}

/// One place to the right in a mirrored remainder by the polynomial of CRC-32.
pub open spec fn times_x32(r: int) -> int {
    if r % 2 == 1 {
        ((r / 2) as u32 ^ 3_988_292_384u32) as int
    } else {
        r / 2
    }
}

proof fn lemma_shift16(x: u16)
    ensures
        modem::crc16_shift(x) == times_x16(x as int),
{
    assert((x & 0x8000 != 0 <==> x >= 0x8000) && (x >= 0x8000 ==> x << 1 == 2 * x - 65536) && (x
        < 0x8000 ==> x << 1 == 2 * x)) by (bit_vector);
}

proof fn lemma_shift32(x: u32)
    ensures
        modem::crc32_shift(x) == times_x32(x as int),
{
    assert((x & 1 != 0 <==> x % 2 == 1) && x >> 1 == x / 2) by (bit_vector);
    assert(0xEDB8_8320u32 == 3_988_292_384u32);
}

/// The CRC of blocks: nothing has the CRC zero, and a byte more is eight places
/// more in the division by x^16 + x^12 + x^5 + 1.
pub proof fn crc16_is_a_remainder(data: Seq<u8>, b: u8)
    ensures
        modem::crc16(Seq::empty()) == 0,
        modem::crc16(data.push(b)) == times_x16(
            times_x16(
                times_x16(
                    times_x16(
                        times_x16(
                            times_x16(
                                times_x16(
                                    times_x16(
                                        (modem::crc16(data) ^ ((b as int * 256) as u16)) as int,
                                    ),
                                ),
                            ),
                        ),
                    ),
                ),
            ),
        ),
{
    assert(data.push(b).drop_last() =~= data);
    assert((b as u16) << 8 == b * 256) by (bit_vector);
    let x = modem::crc16(data) ^ ((b as u16) << 8);
    lemma_shift16(x);
    reveal_with_fuel(modem::crc16_shifts, 9);
    lemma_shift16(modem::crc16_shifts(x, 1));
    lemma_shift16(modem::crc16_shifts(x, 2));
    lemma_shift16(modem::crc16_shifts(x, 3));
    lemma_shift16(modem::crc16_shifts(x, 4));
    lemma_shift16(modem::crc16_shifts(x, 5));
    lemma_shift16(modem::crc16_shifts(x, 6));
    lemma_shift16(modem::crc16_shifts(x, 7));
}

/// The CRC of frames: nothing has the CRC zero, and a byte more is eight places
/// more in the mirrored division.
pub proof fn crc32_is_a_remainder(data: Seq<u8>, b: u8)
    ensures
        modem::spec_crc32(Seq::empty()) == 0,
        0xFFFF_FFFF - modem::spec_crc32(data.push(b)) == times_x32(
            times_x32(
                times_x32(
                    times_x32(
                        times_x32(
                            times_x32(
                                times_x32(
                                    times_x32(
                                        ((0xFFFF_FFFF - modem::spec_crc32(data)) as u32 ^ b as u32)
                                            as int,
                                    ),
                                ),
                            ),
                        ),
                    ),
                ),
            ),
        ),
{
    assert(data.push(b).drop_last() =~= data);
    assert(forall|x: u32| #[trigger] (!x) == 0xFFFF_FFFF - x) by (bit_vector);
    let x = modem::crc32_register(data) ^ (b as u32);
    lemma_shift32(x);
    reveal_with_fuel(modem::crc32_shifts, 9);
    lemma_shift32(modem::crc32_shifts(x, 1));
    lemma_shift32(modem::crc32_shifts(x, 2));
    lemma_shift32(modem::crc32_shifts(x, 3));
    lemma_shift32(modem::crc32_shifts(x, 4));
    lemma_shift32(modem::crc32_shifts(x, 5));
    lemma_shift32(modem::crc32_shifts(x, 6));
    lemma_shift32(modem::crc32_shifts(x, 7));
}

/// The checksum is the sum of all bytes, modulo 256.
pub proof fn checksum_adds_up(data: Seq<u8>, b: u8)
    ensures
        modem::sum8(Seq::empty()) == 0,
        modem::sum8(data.push(b)) == (modem::sum8(data) + b) % 256,
{
    assert(data.push(b).drop_last() =~= data);
}

/// Numbers go over the line with their lowest byte first.
pub proof fn lowest_byte_comes_first(x: u32, s: Seq<u8>)
    requires
        s.len() == 4,
    ensures
        modem::le_bytes(x) == seq![
            (x % 256) as u8,
            (x / 256 % 256) as u8,
            (x / 65_536 % 256) as u8,
            (x / 16_777_216) as u8,
        ],
        modem::from_le(s) == s[0] + s[1] * 256 + s[2] * 65_536 + s[3] * 16_777_216,
{
    reveal(modem::le_bytes);
    reveal(modem::from_le);
    lemma_low_bytes(x);
    lemma_low_sum(s[0], s[1], s[2], s[3]);
    assert(modem::le_bytes(x) =~= seq![
        (x % 256) as u8,
        (x / 256 % 256) as u8,
        (x / 65_536 % 256) as u8,
        (x / 16_777_216) as u8,
    ]);
}

proof fn lemma_low_bytes(x: u32)
    by (bit_vector)
    ensures
        x & 0xff == x % 256,
        (x >> 8) & 0xff == x / 256 % 256,
        (x >> 16) & 0xff == x / 65_536 % 256,
        (x >> 24) & 0xff == x / 16_777_216,
{
}

proof fn lemma_low_sum(a: u8, b: u8, c: u8, d: u8)
    by (bit_vector)
    ensures
        (a as u32) | ((b as u32) << 8) | ((c as u32) << 16) | ((d as u32) << 24) == a + b * 256 + c
            * 65_536 + d * 16_777_216,
{
}

/// Of a received text only the padding behind it is dropped.
pub proof fn only_padding_is_dropped(data: Seq<u8>)
    ensures
        modem::unpadded(data).is_prefix_of(data),
        forall|i: int|
            modem::unpadded(data).len() <= i < data.len() ==> #[trigger] data[i] == 0x1A,
        modem::unpadded(data).len() > 0 ==> modem::unpadded(data).last() != 0x1A,
    decreases data.len(),
{
    if data.len() > 0 && data.last() == modem::PAD {
        only_padding_is_dropped(data.drop_last());
        assert forall|i: int| modem::unpadded(data).len() <= i < data.len() implies #[trigger] data[i]
            == 0x1A by {
            if i < data.len() - 1 {
                assert(data.drop_last()[i] == data[i]);
            }
        }
    }
}

// ---------------------------------------------------------------------------
// XMODEM
// ---------------------------------------------------------------------------

/// Whether bytes behind a payload are its check: the CRC with its high byte
/// first, or the checksum.
pub open spec fn checks(block: Seq<u8>, tail: Seq<u8>, use_crc: bool) -> bool {
    if use_crc {
        tail.len() == 2 && tail[0] == modem::crc16(block) / 256 && tail[1] == modem::crc16(block)
            % 256
    } else {
        tail.len() == 1 && tail[0] == modem::sum8(block)
    }
}

proof fn lemma_crc_parts(crc: u16)
    ensures
        (crc >> 8) as u8 == crc / 256,
        (crc & 0xFF) as u8 == crc % 256,
{
    assert((crc >> 8) as u8 == crc / 256 && (crc & 0xFF) as u8 == crc % 256) by (bit_vector);
}

proof fn lemma_checks(block: Seq<u8>, tail: Seq<u8>, use_crc: bool)
    ensures
        checks(block, tail, use_crc) <==> tail == xmodem::check_bytes(block, use_crc),
{
    lemma_crc_parts(modem::crc16(block));
    if checks(block, tail, use_crc) {
        assert(tail =~= xmodem::check_bytes(block, use_crc));
    }
}

proof fn lemma_complement(n: u8)
    ensures
        !n == 255 - n,
{
    assert(!n == 255 - n) by (bit_vector);
}

/// A packet is its header, the number of the block, what the number lacks to
/// 255, the block, and the check: the two bytes of the CRC, the high one first,
/// or one byte of checksum.
pub proof fn packet_on_the_line(header: u8, number: u8, block: Seq<u8>, use_crc: bool)
    ensures
        ({
            let p = xmodem::packet(header, number, block, use_crc);
            let n = block.len() as int;
            &&& p.len() == n + (if use_crc {
                5int
            } else {
                4int
            })
            &&& p[0] == header
            &&& p[1] == number
            &&& p[2] == 255 - number
            &&& p.subrange(3, 3 + n) == block
            &&& use_crc ==> p[n + 3] == modem::crc16(block) / 256 && p[n + 4] == modem::crc16(block)
                % 256
            &&& use_crc ==> modem::crc16(block + p.skip(n + 3)) == 0
            &&& !use_crc ==> p[n + 3] == modem::sum8(block)
        }),
{
    let p = xmodem::packet(header, number, block, use_crc);
    let n = block.len() as int;
    lemma_complement(number);
    lemma_crc_parts(modem::crc16(block));
    assert(p.subrange(3, 3 + n) =~= block);
    if use_crc {
        assert(p.skip(n + 3) =~= seq![
            (modem::crc16(block) >> 8) as u8,
            (modem::crc16(block) & 0xFF) as u8,
        ]);
        modem::data_with_its_crc_has_crc_zero(block);
    }
}

/// A block is the next 128 or 1024 bytes of the data, filled up with 0x1A, and
/// its packet opens with 1 or 2.
pub proof fn blocks_hold_the_data(
    data: Seq<u8>,
    use_1k: bool,
    use_crc: bool,
    offset: int,
    number: u8,
    i: int,
)
    requires
        0 <= offset <= data.len(),
        0 <= i < (if use_1k {
            1024int
        } else {
            128int
        }),
    ensures
        ({
            let p = xmodem::packet_at(data, use_1k, use_crc, offset, number);
            let size = if use_1k {
                1024int
            } else {
                128int
            };
            &&& p.len() == size + (if use_crc {
                5int
            } else {
                4int
            })
            &&& p[0] == (if use_1k {
                2u8
            } else {
                1u8
            })
            &&& p[1] == number
            &&& p[3 + i] == (if offset + i < data.len() {
                data[offset + i]
            } else {
                0x1Au8
            })
            &&& checks(p.subrange(3, 3 + size), p.skip(3 + size), use_crc)
        }),
{
    let size = xmodem::block_size(use_1k);
    let block = xmodem::block_at(data, offset, size);
    let p = xmodem::packet_at(data, use_1k, use_crc, offset, number);
    packet_on_the_line(xmodem::block_header(use_1k), number, block, use_crc);
    assert(p.subrange(3, 3 + size)[i] == block[i]);
    assert(p.skip(3 + size) =~= xmodem::check_bytes(block, use_crc));
    lemma_checks(block, p.skip(3 + size), use_crc);
}

/// A sender starts with block 1 at the beginning of the data, with the CRC where
/// it was asked for by `C` and with the checksum where by 0x15; a receiver may
/// cancel; nothing else moves it.
pub proof fn xmodem_sender_starts(data: Seq<u8>, use_1k: bool, b: u8)
    ensures
        ({
            let start = xmodem::sender_start(data, use_1k);
            let (tx, action) = start.step(EventView::Byte(b));
            if b == 0x43 || b == 0x15 {
                &&& tx.data == data
                &&& tx.phase == (xmodem::SendPhase::Block {
                    use_crc: b == 0x43,
                    offset: 0,
                    number: 1,
                    retries: 0,
                })
                &&& action.send == xmodem::packet_at(data, use_1k, b == 0x43, 0, 1)
                &&& action.next == (NextView::ReadByte { timeout_ms: 3000 })
            } else if b == 0x18 {
                tx.phase is Failed && action.send.len() == 0 && action.next == NextView::Failed(
                    "XMODEM cancelled by receiver"@,
                )
            } else {
                &&& tx == start && action.send.len() == 0
                &&& action.next == (NextView::Poll {
                    timeout_ms: 500,
                    deadline_ms: 30_000,
                    restart: false,
                })
            }
        }),
        xmodem::sender_start(data, use_1k).step(EventView::Deadline).0.phase is Failed,
{
}

/// A block that was acknowledged with 6 is followed by the next one, with the
/// next number, or by the end of transmission where it was the last; one that
/// was not is sent again as it was, at most ten times in all.
pub proof fn xmodem_sender_goes_on(
    tx: xmodem::SenderView,
    use_crc: bool,
    offset: usize,
    number: u8,
    retries: u32,
    b: u8,
)
    requires
        tx.wf(),
        tx.data.len() <= usize::MAX,
        tx.phase == (xmodem::SendPhase::Block { use_crc, offset, number, retries }),
    ensures
        ({
            let size = if tx.use_1k {
                1024int
            } else {
                128int
            };
            let len = tx.data.len() as int;
            let (next, action) = tx.step(EventView::Byte(b));
            &&& next.data == tx.data && next.use_1k == tx.use_1k
            &&& if b == 6 {
                if offset + size < len {
                    &&& next.phase == (xmodem::SendPhase::Block {
                        use_crc,
                        offset: (offset + size) as usize,
                        number: ((number + 1) % 256) as u8,
                        retries: 0,
                    })
                    &&& action.send == xmodem::packet_at(
                        tx.data,
                        tx.use_1k,
                        use_crc,
                        offset + size,
                        ((number + 1) % 256) as u8,
                    )
                    &&& action.progress == Some(
                        Progress { done: (offset + size) as usize, total: Some(len as usize) },
                    )
                } else {
                    &&& next.phase == (xmodem::SendPhase::Eot { retries: 0 })
                    &&& action.send == seq![4u8]
                    &&& action.progress == Some(
                        Progress { done: len as usize, total: Some(len as usize) },
                    )
                }
            } else if b == 0x18 || retries >= 9 {
                next.phase is Failed && action.send.len() == 0 && action.next is Failed
            } else {
                &&& next.phase == (xmodem::SendPhase::Block {
                    use_crc,
                    offset,
                    number,
                    retries: (retries + 1) as u32,
                })
                &&& action.send == xmodem::packet_at(
                    tx.data,
                    tx.use_1k,
                    use_crc,
                    offset as int,
                    number,
                )
            }
        }),
        tx.step(EventView::Timeout).0.phase is Failed,
{
}

/// The end of transmission is 4, sent until it is acknowledged with 6, at most
/// ten times.
pub proof fn xmodem_sender_ends(tx: xmodem::SenderView, retries: u32, b: u8)
    requires
        tx.wf(),
        tx.phase == (xmodem::SendPhase::Eot { retries }),
    ensures
        ({
            let (next, action) = tx.step(EventView::Byte(b));
            if b == 6 {
                next.phase is Done && action.next is Done && action.send.len() == 0
            } else if retries >= 9 {
                next.phase is Failed && action.next == NextView::Failed(
                    "XMODEM EOT not acknowledged"@,
                )
            } else {
                next.phase == (xmodem::SendPhase::Eot { retries: (retries + 1) as u32 })
                    && action.send == seq![4u8]
            }
        }),
{
}

/// What a receiver does with the body of a block: a sound block with the
/// expected number is appended and answered with 6; the one before it again is
/// answered with 6 and dropped; an unsound one is answered with 0x15; any other
/// with 0x18.
pub proof fn xmodem_receiver_answers(
    rx: xmodem::ReceiverView,
    header: u8,
    first: bool,
    body: Seq<u8>,
)
    requires
        rx.phase == (xmodem::ReceivePhase::Body { header, first }),
        header == 1 || header == 2,
        body.len() == (if header == 2 {
            1024int
        } else {
            128int
        }) + (if rx.use_crc {
            4int
        } else {
            3int
        }),
    ensures
        ({
            let size = if header == 2 {
                1024int
            } else {
                128int
            };
            let block = body.subrange(2, 2 + size);
            let sound = body[0] + body[1] == 255 && checks(
                block,
                body.skip(2 + size),
                rx.use_crc,
            );
            let (next, action) = rx.step(EventView::Bytes(body));
            &&& rx.pending() == NextView::ReadExact(body.len() as int)
            &&& if sound && body[0] == rx.expected_block {
                &&& action.send == seq![6u8]
                &&& next.received == rx.received + block
                &&& next.expected_block == (rx.expected_block + 1) % 256
                &&& next.phase is Header
                &&& action.progress == Some(
                    Progress { done: (rx.received.len() + size) as usize, total: None },
                )
            } else if sound && body[0] == (rx.expected_block + 255) % 256 {
                action.send == seq![6u8] && next.received == rx.received && next.phase is Header
            } else {
                &&& action.send == (if sound {
                    seq![0x18u8]
                } else {
                    seq![0x15u8]
                })
                &&& next.received == rx.received
                &&& next.expected_block == rx.expected_block
                &&& if first {
                    next.phase is Failed && action.next is Failed
                } else {
                    next.phase is Header && action.next == (NextView::ReadByte { timeout_ms: 3000 })
                }
            }
        }),
{
    let size = if header == 2 {
        1024int
    } else {
        128int
    };
    let block = body.subrange(2, 2 + size);
    lemma_complement(body[0]);
    lemma_checks(block, body.skip(2 + size), rx.use_crc);
}

/// A receiver asks with `C` where it wants the CRC and with 0x15 where not, ten
/// times at most.
pub proof fn xmodem_receiver_asks(use_crc: bool, rx: xmodem::ReceiverView, attempts: u32)
    requires
        rx.use_crc == use_crc,
        rx.phase == (xmodem::ReceivePhase::Start { attempts }),
    ensures
        xmodem::start_char(use_crc) == (if use_crc {
            0x43u8
        } else {
            0x15u8
        }),
        xmodem::receiver_start(use_crc).expected_block == 1,
        xmodem::receiver_start(use_crc).received.len() == 0,
        xmodem::receiver_start(use_crc).phase == (xmodem::ReceivePhase::Start { attempts: 1 }),
        ({
            let (next, action) = rx.step(EventView::Timeout);
            if attempts < 10 {
                &&& next.phase == (xmodem::ReceivePhase::Start { attempts: (attempts + 1) as u32 })
                &&& action.send == seq![
                    if use_crc {
                        0x43u8
                    } else {
                        0x15u8
                    },
                ]
                &&& action.next == (NextView::ReadByte { timeout_ms: 1000 })
            } else {
                next.phase is Failed && action.next is Failed
            }
        }),
{
}

/// A header of 1 or 2 opens a block; 4 ends the transfer, answered with 6, and
/// hands out what arrived without its padding; 0x18 gives up.
pub proof fn xmodem_receiver_follows(rx: xmodem::ReceiverView, b: u8)
    requires
        rx.phase is Header || rx.phase is Start,
    ensures
        ({
            let (next, action) = rx.step(EventView::Byte(b));
            if b == 1 || b == 2 {
                &&& next == (xmodem::ReceiverView {
                    phase: xmodem::ReceivePhase::Body { header: b, first: rx.phase is Start },
                    ..rx
                })
                &&& action.send.len() == 0
            } else if b == 4 {
                &&& next.phase is Done && action.send == seq![6u8] && action.next is Done
                &&& next.received == (if rx.phase is Header {
                    modem::unpadded(rx.received)
                } else {
                    rx.received
                })
            } else if b == 0x18 {
                next.phase is Failed && action.send.len() == 0 && next.received == rx.received
            } else {
                next.received == rx.received && !(next.phase is Done)
            }
        }),
{
}

/// Which protocol does what: all but plain XMODEM check by CRC, XMODEM-1K and
/// YMODEM send 1024 bytes at a time, and the name a received file gets where none
/// was sent is that of the protocol.
pub proof fn protocols_differ(p: FileTransferProtocol)
    ensures
        p.wants_crc() <==> p != FileTransferProtocol::Xmodem,
        p.sends_1k() <==> p == FileTransferProtocol::Xmodem1k || p
            == FileTransferProtocol::Ymodem,
        p.spec_fallback() == (match p {
            FileTransferProtocol::Xmodem => "xmodem_recv.bin"@,
            FileTransferProtocol::XmodemCrc => "xmodem_recv.bin"@,
            FileTransferProtocol::Xmodem1k => "xmodem1k_recv.bin"@,
            FileTransferProtocol::Ymodem => "ymodem_recv.bin"@,
            FileTransferProtocol::Zmodem => "zmodem_recv.bin"@,
        }),
{
}

/// A transfer is begun in the protocol that was asked for, with the whole file
/// and nothing received yet: an XMODEM or YMODEM sender waits for the receiver,
/// a receiver asks with one byte, and ZMODEM opens with a header on either side.
pub proof fn transfers_begin(
    p: FileTransferProtocol,
    name: Seq<char>,
    data: Seq<u8>,
    tx: SendMachine,
    sent: ActionView,
    rx: ReceiveMachine,
    asked: ActionView,
)
    requires
        modem::starts_sending(p, name, data, tx, sent),
        modem::starts_receiving(p, rx, asked),
    ensures
        tx is Xmodem <==> p is Xmodem || p is XmodemCrc || p is Xmodem1k,
        tx is Ymodem <==> p is Ymodem,
        tx is Zmodem <==> p is Zmodem,
        tx.data() == data,
        tx matches SendMachine::Xmodem(m) ==> m@.use_1k == (p is Xmodem1k) && m@.phase is Start,
        tx matches SendMachine::Ymodem(m) ==> m@.name == name && m@.phase is Start,
        tx matches SendMachine::Zmodem(m) ==> m@.name == name && m@.phase is AwaitInit,
        p is Zmodem ==> sent.send == zmodem::header_bytes(0, seq![0u8, 0, 0, 0]),
        !(p is Zmodem) ==> sent.send.len() == 0 && sent.next == (NextView::Poll {
            timeout_ms: 500,
            deadline_ms: 30_000,
            restart: true,
        }),
        rx is Xmodem <==> tx is Xmodem,
        rx is Ymodem <==> tx is Ymodem,
        rx is Zmodem <==> tx is Zmodem,
        asked.send == (match p {
            FileTransferProtocol::Xmodem => seq![0x15u8],
            FileTransferProtocol::Zmodem => zmodem::header_bytes(1, seq![0u8, 0, 0, 0x23]),
            _ => seq![0x43u8],
        }),
        rx matches ReceiveMachine::Xmodem(m) ==> m@.use_crc == !(p is Xmodem)
            && m@.received.len() == 0 && m@.expected_block == 1,
        rx matches ReceiveMachine::Ymodem(m) ==> m@.received.len() == 0 && m@.expected_block == 1
            && m@.expected_size is None,
        rx matches ReceiveMachine::Zmodem(m) ==> m@.received.len() == 0 && m@.expected_size == 0
            && m@.name.len() == 0 && m@.phase is AwaitFile,
        !(p is Zmodem) ==> asked.next == (NextView::ReadByte { timeout_ms: 1000 }),
{
}

/// A machine goes on as its protocol does, and stays in it.
pub proof fn machines_keep_their_protocol(
    tx: SendMachine,
    rx: ReceiveMachine,
    event: EventView,
    tx2: SendMachine,
    rx2: ReceiveMachine,
    sent: ActionView,
    answered: ActionView,
)
    requires
        tx.steps(event, tx2, sent),
        rx.steps(event, rx2, answered),
    ensures
        match tx {
            SendMachine::Xmodem(a) => tx2 matches SendMachine::Xmodem(b) && (b@, sent) == a@.step(
                event,
            ),
            SendMachine::Ymodem(a) => tx2 matches SendMachine::Ymodem(b) && (b@, sent) == a@.step(
                event,
            ),
            SendMachine::Zmodem(a) => tx2 matches SendMachine::Zmodem(b) && (b@, sent) == a@.step(
                event,
            ),
        },
        match rx {
            ReceiveMachine::Xmodem(a) => rx2 matches ReceiveMachine::Xmodem(b) && (b@, answered)
                == a@.step(event),
            ReceiveMachine::Ymodem(a) => rx2 matches ReceiveMachine::Ymodem(b) && (b@, answered)
                == a@.step(event),
            ReceiveMachine::Zmodem(a) => rx2 matches ReceiveMachine::Zmodem(b) && (b@, answered)
                == a@.step(event),
        },
{
}

// ---------------------------------------------------------------------------
// YMODEM
// ---------------------------------------------------------------------------

/// The packet in front of a file is block 0 with 128 bytes: the name, a zero, the
/// size in decimal, and zeros; the one behind the last file is all zeros.
pub proof fn ymodem_header_on_the_line(name: Seq<char>, size: nat, i: int)
    requires
        ymodem::header_fits(name, size),
        0 <= i < 128,
    ensures
        ({
            let p = ymodem::header_packet(name, size);
            let q = ymodem::null_packet();
            let n = vstd::utf8::encode_utf8(name);
            let d = vstd::utf8::encode_utf8(text::dec_nat(size));
            &&& n.len() + 1 + d.len() <= 128
            &&& p.len() == 133 && p[0] == 1 && p[1] == 0 && p[2] == 255
            &&& p[3 + i] == (if i < n.len() {
                n[i]
            } else if n.len() < i <= n.len() + d.len() {
                d[i - n.len() - 1]
            } else {
                0u8
            })
            &&& checks(p.subrange(3, 131), p.skip(131), true)
            &&& q.len() == 133 && q[0] == 1 && q[1] == 0 && q[2] == 255 && q[3 + i] == 0
            &&& checks(q.subrange(3, 131), q.skip(131), true)
        }),
{
    let h = ymodem::header_payload(name, size);
    let z = ymodem::zeros(128);
    packet_on_the_line(1, 0, h, true);
    packet_on_the_line(1, 0, z, true);
    let p = ymodem::header_packet(name, size);
    let q = ymodem::null_packet();
    assert(p.subrange(3, 131)[i] == h[i]);
    assert(q.subrange(3, 131)[i] == z[i]);
    assert(p.skip(131) =~= xmodem::check_bytes(h, true));
    assert(q.skip(131) =~= xmodem::check_bytes(z, true));
    lemma_checks(h, p.skip(131), true);
    lemma_checks(z, q.skip(131), true);
}

/// The course of a YMODEM sender: the header on `C`; after its 6 and another `C`
/// the first block; the blocks as they are acknowledged; 4, and again on 0x15;
/// and the closing packet on the last `C`.
pub proof fn ymodem_sender_goes_on(tx: ymodem::SenderView, b: u8)
    requires
        tx.data.len() <= usize::MAX,
    ensures
        ({
            let (next, action) = tx.step(EventView::Byte(b));
            let size = 1024int;
            let len = tx.data.len() as int;
            &&& next.data == tx.data && next.name == tx.name
            &&& match tx.phase {
                ymodem::SendPhase::Start => if b == 0x43 {
                    next.phase is HeaderAck && action.send == ymodem::header_packet(
                        tx.name,
                        tx.data.len(),
                    )
                } else if b == 0x18 {
                    next.phase is Failed
                } else {
                    next == tx && action.send.len() == 0
                },
                ymodem::SendPhase::HeaderAck => if b == 6 {
                    next.phase is DataStart && action.send.len() == 0
                } else {
                    next.phase is Failed
                },
                ymodem::SendPhase::DataStart => if b == 0x43 {
                    &&& next.phase == (ymodem::SendPhase::Block {
                        offset: 0,
                        number: 1,
                        retries: 0,
                    })
                    &&& action.send == xmodem::packet_at(tx.data, true, true, 0, 1)
                } else {
                    next.phase is Failed
                },
                ymodem::SendPhase::Block { offset, number, retries } => if b == 6 {
                    if offset + size < len {
                        &&& next.phase == (ymodem::SendPhase::Block {
                            offset: (offset + size) as usize,
                            number: ((number + 1) % 256) as u8,
                            retries: 0,
                        })
                        &&& action.send == xmodem::packet_at(
                            tx.data,
                            true,
                            true,
                            offset + size,
                            ((number + 1) % 256) as u8,
                        )
                        &&& action.progress == Some(
                            Progress { done: (offset + size) as usize, total: Some(len as usize) },
                        )
                    } else {
                        next.phase is FirstEot && action.send == seq![4u8] && action.progress
                            == Some(Progress { done: len as usize, total: Some(len as usize) })
                    }
                } else if b == 0x18 || retries >= 9 {
                    next.phase is Failed
                } else {
                    &&& next.phase == (ymodem::SendPhase::Block {
                        offset,
                        number,
                        retries: (retries + 1) as u32,
                    })
                    &&& action.send == xmodem::packet_at(
                        tx.data,
                        true,
                        true,
                        offset as int,
                        number,
                    )
                },
                ymodem::SendPhase::FirstEot => if b == 0x15 {
                    next.phase is SecondEot && action.send == seq![4u8]
                } else {
                    next.phase is Batch && action.send.len() == 0
                },
                ymodem::SendPhase::SecondEot => if b == 6 {
                    next.phase is Batch && action.send.len() == 0
                } else {
                    next.phase is Failed
                },
                ymodem::SendPhase::Batch => if b == 0x43 {
                    next.phase is NullAck && action.send == ymodem::null_packet()
                } else {
                    next.phase is Done && action.send.len() == 0
                },
                ymodem::SendPhase::NullAck => next.phase is Done && action.send.len() == 0,
                _ => next == tx && action.send.len() == 0,
            }
        }),
{
}

/// What a YMODEM receiver does with the body of a data block: a sound block with
/// the expected number is appended; a sound one with another number is dropped;
/// both are answered with 6, and an unsound one with 0x15.
pub proof fn ymodem_receiver_answers(rx: ymodem::ReceiverView, header: u8, body: Seq<u8>)
    requires
        rx.phase == (ymodem::ReceivePhase::Body { header }),
        header == 1 || header == 2,
        body.len() == (if header == 2 {
            1028int
        } else {
            132int
        }),
    ensures
        ({
            let size = body.len() - 4;
            let block = body.subrange(2, 2 + size);
            let sound = body[0] + body[1] == 255 && checks(block, body.skip(2 + size), true);
            let (next, action) = rx.step(EventView::Bytes(body));
            &&& rx.pending() == NextView::ReadExact(body.len() as int)
            &&& next.phase is Header && next.name == rx.name && next.expected_size
                == rx.expected_size
            &&& if sound && body[0] == rx.expected_block {
                &&& action.send == seq![6u8]
                &&& next.received == rx.received + block
                &&& next.expected_block == (rx.expected_block + 1) % 256
            } else {
                &&& action.send == (if sound {
                    seq![6u8]
                } else {
                    seq![0x15u8]
                })
                &&& next.received == rx.received
                &&& next.expected_block == rx.expected_block
            }
        }),
{
    let size = body.len() - 4;
    let block = body.subrange(2, 2 + size);
    lemma_complement(body[0]);
    lemma_checks(block, body.skip(2 + size), true);
}

/// The course of a YMODEM receiver: 1 or 2 opens a block, 4 is answered with 0x15
/// and then, the second time, with 6 and `C`, and the file is cut to the size it
/// was announced with, or freed of its padding where none was.
pub proof fn ymodem_receiver_goes_on(rx: ymodem::ReceiverView, b: u8)
    ensures
        ({
            let (next, action) = rx.step(EventView::Byte(b));
            match rx.phase {
                ymodem::ReceivePhase::Start { attempts } => if b == 1 || b == 2 {
                    next.phase == (ymodem::ReceivePhase::HeaderBody { header: b })
                        && action.send.len() == 0
                } else if attempts < 10 {
                    action.send == seq![0x43u8] && next.phase == (ymodem::ReceivePhase::Start {
                        attempts: (attempts + 1) as u32,
                    })
                } else {
                    next.phase is Failed
                },
                ymodem::ReceivePhase::Header => if b == 4 {
                    next.phase is SecondEot && action.send == seq![0x15u8] && next.received
                        == rx.received
                } else if b == 1 || b == 2 {
                    next.phase == (ymodem::ReceivePhase::Body { header: b })
                        && action.send.len() == 0
                } else {
                    next == rx && action.send.len() == 0
                },
                ymodem::ReceivePhase::SecondEot => {
                    &&& next.phase is Close
                    &&& action.send == (if b == 4 {
                        seq![6u8, 0x43]
                    } else {
                        Seq::empty()
                    })
                    &&& match rx.expected_size {
                        Some(n) if n < rx.received.len() => next.received == rx.received.take(
                            n as int,
                        ),
                        Some(_) => next.received == rx.received,
                        None => next.received == modem::unpadded(rx.received),
                    }
                },
                _ => next.received == rx.received && next.name == rx.name,
            }
        }),
{
}

/// A header names the file up to its first zero and its size behind that, up to a
/// zero or a space; without a name the transfer is over. It is answered with 6,
/// and with `C` where data is to follow.
pub proof fn ymodem_receiver_opens(rx: ymodem::ReceiverView, header: u8, body: Seq<u8>)
    requires
        rx.phase == (ymodem::ReceivePhase::HeaderBody { header }),
        header == 1 || header == 2,
        body.len() == (if header == 2 {
            1028int
        } else {
            132int
        }),
    ensures
        ({
            let payload = body.subrange(2, body.len() - 2);
            let (next, action) = rx.step(EventView::Bytes(body));
            &&& next.received == rx.received
            &&& if ymodem::header_name(payload).len() == 0 {
                next.phase is Done && action.send == seq![6u8]
            } else {
                &&& next.phase is Header && action.send == seq![6u8, 0x43]
                &&& next.name == ymodem::header_name(payload)
                &&& match ymodem::header_size(payload) {
                    Some(n) => next.expected_size == Some(n as usize),
                    None => next.expected_size is None,
                }
            }
        }),
{
}

// ---------------------------------------------------------------------------
// ZMODEM
// ---------------------------------------------------------------------------

/// Whether a byte must not stand on the line as it is.
pub open spec fn is_control(b: u8) -> bool {
    b == 16 || b == 17 || b == 19 || b == 24 || b == 127 || b == 144 || b == 145 || b == 147
}

/// A byte that means something to the line goes as 24 and itself with its bit 64
/// turned, any other as it is; bytes go one after the other.
pub proof fn zmodem_escapes(data: Seq<u8>, b: u8)
    ensures
        zmodem::escaped(Seq::empty()).len() == 0,
        zmodem::escaped(data.push(b)) == zmodem::escaped(data) + (if is_control(b) {
            seq![24u8, b ^ 64]
        } else {
            seq![b]
        }),
        zmodem::unescape(false, 24) is None,
        b != 24 ==> zmodem::unescape(false, b) == Some((b, false)),
        zmodem::unescape(true, b) == (if b == 0x68 || b == 0x69 || b == 0x6B {
            Some((b, true))
        } else {
            Some((b ^ 64, false))
        }),
{
    assert(data.push(b).drop_last() =~= data);
}

/// A header is `**`, 24, `C`, then the kind of frame, its four bytes and their
/// CRC-32, lowest byte first, escaped.
pub proof fn zmodem_header_on_the_line(kind: u8, flags: Seq<u8>)
    ensures
        ({
            let raw = seq![kind] + flags;
            let crc = modem::spec_crc32(raw);
            zmodem::header_bytes(kind, flags) == seq![0x2Au8, 0x2A, 0x18, 0x43] + zmodem::escaped(
                raw + seq![
                    (crc % 256) as u8,
                    (crc / 256 % 256) as u8,
                    (crc / 65_536 % 256) as u8,
                    (crc / 16_777_216) as u8,
                ],
            )
        }),
{
    let raw = seq![kind] + flags;
    lowest_byte_comes_first(modem::spec_crc32(raw), seq![0u8, 0, 0, 0]);
}

/// A subpacket is its data escaped, 24 and the way it ends, and the CRC-32 of
/// both, lowest byte first, escaped.
pub proof fn zmodem_subpacket_on_the_line(data: Seq<u8>, end: u8)
    ensures
        ({
            let crc = modem::spec_crc32(data.push(end));
            zmodem::subpacket_bytes(data, end) == zmodem::escaped(data) + seq![24u8, end]
                + zmodem::escaped(
                seq![
                    (crc % 256) as u8,
                    (crc / 256 % 256) as u8,
                    (crc / 65_536 % 256) as u8,
                    (crc / 16_777_216) as u8,
                ],
            )
        }),
{
    lowest_byte_comes_first(modem::spec_crc32(data.push(end)), seq![0u8, 0, 0, 0]);
}

/// What is told of a file: its name, a zero, its size in decimal, ` 0` and two
/// zeros.
pub proof fn zmodem_file_info_on_the_line(name: Seq<char>, size: nat)
    ensures
        zmodem::file_info(name, size) == vstd::utf8::encode_utf8(name) + seq![0u8]
            + vstd::utf8::encode_utf8(text::dec_nat(size)) + seq![32u8, 48, 0, 0],
{
}

/// A header counts only where its CRC-32 is right, and a subpacket likewise.
pub proof fn zmodem_checks_what_it_reads(raw: Seq<u8>, r: zmodem::SubpacketReaderView, b: u8)
    requires
        raw.len() == 9,
        r.crc.len() == 3,
        r.frame_end is Some,
        !r.after_zdle,
        b != 24,
    ensures
        ({
            let c = modem::spec_crc32(raw.take(5));
            zmodem::header_of(raw) == (if raw[5] == c % 256 && raw[6] == c / 256 % 256 && raw[7]
                == c / 65_536 % 256 && raw[8] == c / 16_777_216 {
                zmodem::HeaderView::Frame { frame_type: raw[0], flags: raw.subrange(1, 5) }
            } else {
                zmodem::HeaderView::Broken
            })
        }),
        ({
            let c = modem::spec_crc32(r.data.push(r.frame_end->0));
            r.push(b).1 == (if r.crc[0] == c % 256 && r.crc[1] == c / 256 % 256 && r.crc[2] == c
                / 65_536 % 256 && b == c / 16_777_216 {
                zmodem::SubpacketView::Data { data: r.data, frame_end: r.frame_end->0 }
            } else {
                zmodem::SubpacketView::Broken
            })
        }),
{
    let tail = raw.skip(5);
    lowest_byte_comes_first(0, tail);
    assert(tail[0] == raw[5] && tail[1] == raw[6] && tail[2] == raw[7] && tail[3] == raw[8]);
    lowest_byte_comes_first(0, r.crc.push(b));
}

/// The course of a ZMODEM sender, frame by frame: the file on ZRINIT, its data
/// from where ZRPOS says, the end of the file with its size, and the farewell.
pub proof fn zmodem_sender_goes_on(tx: zmodem::SenderView, kind: u8, flags: Seq<u8>)
    requires
        flags.len() == 4,
    ensures
        ({
            let (next, action) = tx.on_frame(kind, flags);
            &&& next.data == tx.data && next.name == tx.name
            &&& match tx.phase {
                zmodem::SendPhase::AwaitInit => if kind == 1 {
                    next.phase is FileHeader && action.send == zmodem::header_bytes(
                        4,
                        seq![0u8, 0, 0, 0],
                    )
                } else {
                    next.phase is Failed
                },
                zmodem::SendPhase::AwaitPos => if kind == 9 {
                    &&& action.send == zmodem::header_bytes(10, flags)
                    &&& next.phase == (zmodem::SendPhase::Stream {
                        offset: (flags[0] + flags[1] * 256 + flags[2] * 65_536 + flags[3]
                            * 16_777_216) as usize,
                    })
                } else if kind == 0 || kind == 1 {
                    next == tx && action.send.len() == 0
                } else {
                    next.phase is Failed
                },
                zmodem::SendPhase::AwaitEnd => if kind == 1 {
                    next.phase is AwaitFin && action.send == zmodem::header_bytes(
                        8,
                        seq![0u8, 0, 0, 0],
                    )
                } else {
                    next.phase is Done
                },
                zmodem::SendPhase::AwaitFin => next.phase is Done && action.send == seq![
                    0x4Fu8,
                    0x4F,
                ],
                _ => next == tx && action.send.len() == 0,
            }
        }),
{
    lowest_byte_comes_first(0, flags);
}

/// The data goes out in pieces of 1024 bytes, in order, the last one marked as
/// such; behind it comes the end of the file at its size.
pub proof fn zmodem_sends_the_data(tx: zmodem::SenderView, offset: usize)
    requires
        tx.phase == (zmodem::SendPhase::Stream { offset }),
        tx.data.len() <= usize::MAX,
    ensures
        ({
            let (next, action) = tx.step(EventView::Proceed);
            let len = tx.data.len() as int;
            if offset + 1024 < len {
                &&& action.send == zmodem::subpacket_bytes(
                    tx.data.subrange(offset as int, offset + 1024),
                    0x69,
                )
                &&& next.phase == (zmodem::SendPhase::Stream { offset: (offset + 1024) as usize })
            } else if offset < len {
                &&& action.send == zmodem::subpacket_bytes(
                    tx.data.subrange(offset as int, len),
                    0x68,
                )
                &&& next.phase == (zmodem::SendPhase::Stream { offset: len as usize })
                &&& action.progress == Some(
                    Progress { done: len as usize, total: Some(len as usize) },
                )
            } else {
                &&& next.phase is AwaitEnd
                &&& action.send == zmodem::header_bytes(11, modem::le_bytes(len as u32))
            }
        }),
        (zmodem::SenderView { phase: zmodem::SendPhase::FileHeader, ..tx }).step(
            EventView::Proceed,
        ).1.send == zmodem::subpacket_bytes(zmodem::file_info(tx.name, tx.data.len()), 0x6B),
{
    if offset < tx.data.len() {
        assert(tx.data.skip(offset as int) =~= tx.data.subrange(
            offset as int,
            tx.data.len() as int,
        ));
    }
}

/// The course of a ZMODEM receiver, frame by frame, and what it does with the
/// data: the first subpacket names the file and is answered with ZRPOS 0, every
/// other one is appended.
pub proof fn zmodem_receiver_goes_on(rx: zmodem::ReceiverView, kind: u8, data: Seq<u8>, end: u8)
    ensures
        ({
            let (next, action) = rx.on_frame(kind);
            let ready = zmodem::header_bytes(1, seq![0u8, 0, 0, 0x23]);
            let fin = zmodem::header_bytes(8, seq![0u8, 0, 0, 0]);
            &&& next.received == rx.received && next.name == rx.name
            &&& match rx.phase {
                zmodem::ReceivePhase::AwaitFile => if kind == 0 {
                    next.phase is AwaitFile && action.send == ready
                } else if kind == 8 {
                    next.phase is Leaving && action.send == fin
                } else {
                    action.send.len() == 0 && (next.phase is Info <==> kind == 4)
                },
                zmodem::ReceivePhase::AwaitData => action.send.len() == 0 && if kind == 10 {
                    next.phase is Data
                } else {
                    next.phase is Failed
                },
                zmodem::ReceivePhase::AwaitNext => if kind == 11 {
                    next.phase is AwaitFinish && action.send == ready
                } else {
                    next.phase is Data && action.send.len() == 0
                },
                zmodem::ReceivePhase::AwaitFinish => if kind == 8 {
                    next.phase is Closing && action.send == fin
                } else {
                    next.phase is Done && action.send.len() == 0
                },
                _ => action.send.len() == 0,
            }
        }),
        rx.phase is Info ==> ({
            let (next, action) = rx.on_subpacket(data, end);
            &&& next.name == zmodem::info_name(data) && next.expected_size == zmodem::info_size(data)
            &&& next.received == rx.received && next.phase is AwaitData
            &&& action.send == zmodem::header_bytes(9, seq![0u8, 0, 0, 0])
        }),
        rx.phase is Data ==> ({
            let (next, action) = rx.on_subpacket(data, end);
            &&& next.received == rx.received + data && action.send.len() == 0
            &&& next.phase is AwaitNext <==> end == 0x68 || end == 0x6B
            &&& next.phase is Data <==> !(end == 0x68 || end == 0x6B)
        }),
{
}

} // verus!
