//! The display refresh protocol: translating the in-memory framebuffer
//! into the paged two-wire bus traffic that repaints the panel.
//!
//! The panel is written in 8 hardware pages of 8 pixel rows each.  For a
//! page the firmware first sends a 4-byte page-addressing command, then
//! opens a framed transaction to the data register and transmits two
//! padding bytes (the controller's column counter starts one ahead of the
//! visible area) followed by one byte per column, each extracted from the
//! framebuffer by the documented index formula and bit-reversed, because
//! the panel scans bits in the opposite physical direction from how the
//! framebuffer packs them.  The functions here compute that traffic as a
//! plan of bus operations with every byte pinned down; driving the
//! electrical bus, which can fail per transaction, is the caller's part,
//! and `transfer_outcome` folds the per-operation results into the single
//! ok/not-ok indicator the firmware reports.

use vstd::prelude::*;

verus! {

/// The display's bus address; part of the wire contract with the panel.
pub const DISPLAY_BUS_ADDRESS: u8 = 0x3c;

/// The display's data register, the target of framed payload transactions.
pub const DISPLAY_DATA_REGISTER: u8 = 0x40;

/// The framebuffer holds 128 columns by 64 rows, one bit per pixel,
/// packed into this many 32-bit words.
pub const FRAME_WORDS: usize = 256;

/// The panel is addressed in this many pages of 8 pixel rows each.
pub const PAGE_COUNT: usize = 8;

/// Visible columns per page.
pub const COLUMN_COUNT: usize = 128;

/// Bytes of one page payload: two padding bytes, then one per column.
pub const PAGE_DATA_BYTES: usize = 130;

/// The panel needs a fixed post-power delay, this many busy-wait
/// iterations at the reference clock, before it acknowledges bus
/// commands: a hard precondition of the first command after power-on.
pub const POWER_ON_DELAY_ITERATIONS: u32 = 1000000;

/// The monochrome display image: a fixed grid of 128 x 64 pixels stored
/// as 256 packed 32-bit words.  The refresh protocol only reads it.
pub struct Framebuffer {
    words: Vec<u32>,
}

impl View for Framebuffer {
    type V = Seq<u32>;

    /// The packed words, in storage order.
    closed spec fn view(&self) -> Seq<u32> {
        self.words@
    }
}

impl Framebuffer {
    /// A framebuffer always holds exactly `FRAME_WORDS` words.
    pub open spec fn wf(&self) -> bool {
        self@.len() == FRAME_WORDS as int
    }

    /// The all-clear image: every pixel off.
    pub fn new() -> (fb: Framebuffer)
        ensures
            fb.wf(),
            forall|i: int| 0 <= i < fb@.len() ==> fb@[i] == 0u32,
    {
        let mut words: Vec<u32> = Vec::new();
        let mut i: usize = 0;
        while i < FRAME_WORDS
            invariant
                i <= FRAME_WORDS as int,
                words@.len() == i as int,
                forall|j: int| 0 <= j < i ==> words@[j] == 0u32,
            decreases FRAME_WORDS - i,
        {
            words.push(0);
            i += 1;
        }
        Framebuffer { words }
    }

    /// One packed word.
    pub fn word(&self, index: usize) -> (w: u32)
        requires
            self.wf(),
            index < FRAME_WORDS,
        ensures
            w == self@[index as int],
    {
        self.words[index]
    }

    /// Replaces one packed word.
    pub fn set_word(&mut self, index: usize, word: u32)
        requires
            old(self).wf(),
            index < FRAME_WORDS,
        ensures
            final(self).wf(),
            final(self)@ == old(self)@.update(index as int, word),
    {
        self.words.set(index, word);
    }
}

/// Byte `k` of the word `w` read big-endian, as the framebuffer stores
/// its four column bytes per word.
pub open spec fn word_byte_be(w: u32, k: int) -> u8 {
    if k == 0 {
        ((w >> 24) & 0xff) as u8
    } else if k == 1 {
        ((w >> 16) & 0xff) as u8
    } else if k == 2 {
        ((w >> 8) & 0xff) as u8
    } else {
        (w & 0xff) as u8
    }
}

/// The byte `b` with its bit order reversed, as the panel expects column
/// bytes.
pub open spec fn reverse_bits8(b: u8) -> u8 {
    ((b & 0x01) << 7) | ((b & 0x02) << 5) | ((b & 0x04) << 3) | ((b & 0x08) << 1) | ((b & 0x10)
        >> 1) | ((b & 0x20) >> 3) | ((b & 0x40) >> 5) | ((b & 0x80) >> 7)
}

/// Which packed word holds the byte of `column` on `page`.
pub open spec fn page_word_index(page: int, column: int) -> int {
    column * 2 + page / 4
}

/// Which big-endian byte of that word belongs to `page`.
pub open spec fn page_byte_index(page: int) -> int {
    page % 4
}

/// The byte transmitted for one visible column of one page: the addressed
/// framebuffer byte, bit-reversed.
pub open spec fn spec_column_byte(fbv: Seq<u32>, page: int, column: int) -> u8 {
    reverse_bits8(word_byte_be(fbv[page_word_index(page, column)], page_byte_index(page)))
}

/// The 4-byte page-addressing command: command-stream marker, page
/// select, column pointer reset to 0 (low then high nibble).
pub open spec fn spec_page_command(page: int) -> Seq<u8> {
    seq![0x00u8, (0xb0u8 | page as u8), 0x00u8, 0x10u8]
}

/// The full payload of one page's framed transaction: two zero padding
/// bytes, then the 128 column bytes.
pub open spec fn spec_page_data(fbv: Seq<u32>, page: int) -> Seq<u8> {
    Seq::new(
        PAGE_DATA_BYTES as nat,
        |i: int|
            if i < 2 {
                0u8
            } else {
                spec_column_byte(fbv, page, i - 2)
            },
    )
}

/// One operation of the refresh plan, to be driven onto the bus in order.
pub enum BusOp {
    /// A plain addressed send of a command sequence.
    Send { address: u8, bytes: Vec<u8> },
    /// A framed transaction to a register: open, transmit the bytes one
    /// by one, close.
    Framed { address: u8, register: u8, bytes: Vec<u8> },
}

/// The bytes an operation puts on the wire.
pub open spec fn op_bytes(op: BusOp) -> Seq<u8> {
    match op {
        BusOp::Send { bytes, .. } => bytes@,
        BusOp::Framed { bytes, .. } => bytes@,
    }
}

/// Whether `op` is the page-addressing command for `page`.
pub open spec fn is_page_select(op: BusOp, page: int) -> bool {
    &&& op matches BusOp::Send { address, bytes }
    &&& address == DISPLAY_BUS_ADDRESS
    &&& bytes@ == spec_page_command(page)
}

/// Whether `op` is the framed payload of `page` for the image `fbv`.
pub open spec fn is_page_payload(op: BusOp, fbv: Seq<u32>, page: int) -> bool {
    &&& op matches BusOp::Framed { address, register, bytes }
    &&& address == DISPLAY_BUS_ADDRESS
    &&& register == DISPLAY_DATA_REGISTER
    &&& bytes@ == spec_page_data(fbv, page)
}

/// The whole refresh plan for the image `fbv`: for each of the 8 pages,
/// its page-addressing command followed by its framed payload.
pub open spec fn refresh_ops_valid(ops: Seq<BusOp>, fbv: Seq<u32>) -> bool {
    &&& ops.len() == 2 * PAGE_COUNT as int
    &&& forall|p: int| 0 <= p < PAGE_COUNT as int ==> is_page_select(#[trigger] ops[2 * p], p)
    &&& forall|p: int|
        0 <= p < PAGE_COUNT as int ==> is_page_payload(#[trigger] ops[2 * p + 1], fbv, p)
}

/// Byte `k` (big-endian) of the word `w`.
fn word_byte_be_exec(w: u32, k: u8) -> (r: u8)
    requires
        k < 4,
    ensures
        r == word_byte_be(w, k as int),
{
    proof {
        assert((w >> 24) & 0xff < 256 && (w >> 16) & 0xff < 256 && (w >> 8) & 0xff < 256 && w & 0xff
            < 256) by (bit_vector);
    }
    if k == 0 {
        ((w >> 24) & 0xff) as u8
    } else if k == 1 {
        ((w >> 16) & 0xff) as u8
    } else if k == 2 {
        ((w >> 8) & 0xff) as u8
    } else {
        (w & 0xff) as u8
    }
}

/// The byte `b` with its bit order reversed.
fn reverse_byte(b: u8) -> (r: u8)
    ensures
        r == reverse_bits8(b),
{
    ((b & 0x01) << 7) | ((b & 0x02) << 5) | ((b & 0x04) << 3) | ((b & 0x08) << 1) | ((b & 0x10)
        >> 1) | ((b & 0x20) >> 3) | ((b & 0x40) >> 5) | ((b & 0x80) >> 7)
}

/// Builds the 4-byte page-addressing command for `page`.
pub fn page_command(page: u8) -> (r: Vec<u8>)
    requires
        page < PAGE_COUNT as u8,
    ensures
        r@ == spec_page_command(page as int),
{
    let mut r: Vec<u8> = Vec::new();
    r.push(0x00);
    r.push(0xb0 | page);
    r.push(0x00);
    r.push(0x10);
    proof {
        assert(r@ =~= spec_page_command(page as int));
    }
    r
}

/// Builds the payload of one page's framed transaction from the image:
/// the two padding bytes, then for each of the 128 columns the addressed
/// framebuffer byte, bit-reversed.
pub fn page_data(fb: &Framebuffer, page: u8) -> (r: Vec<u8>)
    requires
        fb.wf(),
        page < PAGE_COUNT as u8,
    ensures
        r@ == spec_page_data(fb@, page as int),
{
    let mut r: Vec<u8> = Vec::new();
    r.push(0);
    r.push(0);
    let mut column: usize = 0;
    while column < COLUMN_COUNT
        invariant
            fb.wf(),
            page < PAGE_COUNT as u8,
            column <= COLUMN_COUNT as int,
            r@.len() == column + 2,
            r@[0] == 0u8,
            r@[1] == 0u8,
            forall|c: int| 0 <= c < column ==> r@[c + 2] == spec_column_byte(fb@, page as int, c),
        decreases COLUMN_COUNT - column,
    {
        let word_index: usize = column * 2 + (page as usize) / 4;
        let word = fb.word(word_index);
        let byte = word_byte_be_exec(word, page % 4);
        r.push(reverse_byte(byte));
        column += 1;
    }
    proof {
        assert(r@ =~= spec_page_data(fb@, page as int));
    }
    r
}

/// The refresh plan for the current image: fully repaints the panel when
/// driven onto the bus in order.  Every byte of every operation is pinned
/// to the image by `refresh_ops_valid`, so an unchanged image always
/// yields the identical plan.
pub fn update_screen(fb: &Framebuffer) -> (ops: Vec<BusOp>)
    requires
        fb.wf(),
    ensures
        refresh_ops_valid(ops@, fb@),
{
    let mut ops: Vec<BusOp> = Vec::new();
    let mut page: u8 = 0;
    while page < PAGE_COUNT as u8
        invariant
            fb.wf(),
            page <= PAGE_COUNT as u8,
            ops@.len() == 2 * page as int,
            forall|p: int| 0 <= p < page as int ==> is_page_select(#[trigger] ops@[2 * p], p),
            forall|p: int|
                0 <= p < page as int ==> is_page_payload(#[trigger] ops@[2 * p + 1], fb@, p),
        decreases PAGE_COUNT - page as int,
    {
        ops.push(BusOp::Send { address: DISPLAY_BUS_ADDRESS, bytes: page_command(page) });
        ops.push(
            BusOp::Framed {
                address: DISPLAY_BUS_ADDRESS,
                register: DISPLAY_DATA_REGISTER,
                bytes: page_data(fb, page),
            },
        );
        page += 1;
    }
    ops
}

/// The panel's power-on initialization command stream, sent once before
/// the first refresh; each byte is part of the wire contract with the
/// panel (display offset, start line, segment remap, scan direction, pin
/// configuration, contrast, oscillator, charge pump, display on).
pub open spec fn spec_display_init_packet() -> Seq<u8> {
    seq![
        0x00u8, 0xa8u8, 0x3fu8, 0xd3u8, 0x00u8, 0x40u8, 0xa0u8, 0xc0u8, 0xdau8, 0x12u8, 0x81u8,
        0x7fu8, 0xa4u8, 0xd5u8, 0x80u8, 0x8du8, 0x14u8, 0xafu8,
    ]
}

/// Builds the power-on initialization command stream, byte for byte.
pub fn display_init_packet() -> (r: Vec<u8>)
    ensures
        r@ == spec_display_init_packet(),
{
    let mut r: Vec<u8> = Vec::new();
    r.push(0x00);
    r.push(0xa8);
    r.push(0x3f);
    r.push(0xd3);
    r.push(0x00);
    r.push(0x40);
    r.push(0xa0);
    r.push(0xc0);
    r.push(0xda);
    r.push(0x12);
    r.push(0x81);
    r.push(0x7f);
    r.push(0xa4);
    r.push(0xd5);
    r.push(0x80);
    r.push(0x8d);
    r.push(0x14);
    r.push(0xaf);
    proof {
        assert(r@ =~= spec_display_init_packet());
    }
    r
}

/// Folds the per-operation success flags of one driven plan into the
/// aggregate indicator the firmware reports: ok exactly when every
/// operation succeeded.  A failed page never stops the plan — the caller
/// drives every operation and records each outcome — so this is the
/// whole error policy.
pub fn transfer_outcome(results: &Vec<bool>) -> (ok: bool)
    ensures
        ok <==> (forall|i: int| 0 <= i < results@.len() ==> results@[i]),
{
    let mut err = false;
    let mut i: usize = 0;
    while i < results.len()
        invariant
            i <= results@.len(),
            err <==> !(forall|j: int| 0 <= j < i ==> results@[j]),
        decreases results@.len() - i,
    {
        err = err || !results[i];
        i += 1;
    }
    !err
}

proof fn lemma_zero_word_bytes()
    ensures
        forall|k: int| 0 <= k < 4 ==> word_byte_be(0u32, k) == 0u8,
{
    assert(((0u32 >> 24) & 0xff) as u8 == 0u8 && ((0u32 >> 16) & 0xff) as u8 == 0u8 && ((0u32 >> 8)
        & 0xff) as u8 == 0u8 && (0u32 & 0xff) as u8 == 0u8) by (bit_vector);
}

proof fn lemma_reverse_bits8_zero()
    ensures
        reverse_bits8(0u8) == 0u8,
{
    assert(((0u8 & 0x01) << 7) | ((0u8 & 0x02) << 5) | ((0u8 & 0x04) << 3) | ((0u8 & 0x08) << 1) | (
    (0u8 & 0x10) >> 1) | ((0u8 & 0x20) >> 3) | ((0u8 & 0x40) >> 5) | ((0u8 & 0x80) >> 7) == 0u8)
        by (bit_vector);
}

/// A blank image transmits only zeroes: any valid refresh plan for the
/// all-zero framebuffer consists of the 8 page-addressing commands and,
/// per page, exactly 130 payload bytes (2 padding and 128 column bytes),
/// every one of them zero.
pub proof fn lemma_blank_image_plan(ops: Seq<BusOp>, fbv: Seq<u32>)
    requires
        refresh_ops_valid(ops, fbv),
        fbv.len() == FRAME_WORDS as int,
        forall|i: int| 0 <= i < fbv.len() ==> fbv[i] == 0u32,
    ensures
        ops.len() == 2 * PAGE_COUNT as int,
        forall|p: int|
            0 <= p < PAGE_COUNT as int ==> op_bytes(#[trigger] ops[2 * p]) == spec_page_command(p),
        forall|p: int|
            0 <= p < PAGE_COUNT as int ==> op_bytes(#[trigger] ops[2 * p + 1]).len()
                == PAGE_DATA_BYTES as int,
        forall|p: int, i: int|
            0 <= p < PAGE_COUNT as int && 0 <= i < PAGE_DATA_BYTES as int ==> #[trigger] op_bytes(
                ops[2 * p + 1],
            )[i] == 0u8,
{
    lemma_zero_word_bytes();
    lemma_reverse_bits8_zero();
    assert forall|p: int, i: int|
        0 <= p < PAGE_COUNT as int && 0 <= i < PAGE_DATA_BYTES as int implies #[trigger] op_bytes(
        ops[2 * p + 1],
    )[i] == 0u8 by {
        assert(is_page_payload(ops[2 * p + 1], fbv, p));
        if i >= 2 {
            let c = i - 2;
            assert(0 <= page_word_index(p, c) < FRAME_WORDS as int);
            assert(fbv[page_word_index(p, c)] == 0u32);
        }
    }
}

proof fn lemma_reverse_bits8_nonzero(b: u8)
    ensures
        (reverse_bits8(b) == 0) <==> (b == 0),
{
    assert((((b & 0x01) << 7) | ((b & 0x02) << 5) | ((b & 0x04) << 3) | ((b & 0x08) << 1) | ((b
        & 0x10) >> 1) | ((b & 0x20) >> 3) | ((b & 0x40) >> 5) | ((b & 0x80) >> 7) == 0) <==> (b
        == 0)) by (bit_vector);
}

/// An image whose only lit word is `wi`, and whose only non-zero
/// big-endian byte of that word is byte `k0`: the whole repaint transmits
/// exactly one non-zero byte, on the page and at the column the index
/// formula names, and that byte is the bit-reversal of the source byte.
pub proof fn lemma_single_byte_image(fbv: Seq<u32>, wi: int, k0: int)
    requires
        fbv.len() == FRAME_WORDS as int,
        0 <= wi < FRAME_WORDS as int,
        forall|j: int| 0 <= j < fbv.len() && j != wi ==> fbv[j] == 0u32,
        0 <= k0 < 4,
        word_byte_be(fbv[wi], k0) != 0,
        forall|k: int| 0 <= k < 4 && k != k0 ==> word_byte_be(fbv[wi], k) == 0u8,
    ensures
        forall|page: int, i: int|
            0 <= page < PAGE_COUNT as int && 0 <= i < PAGE_DATA_BYTES as int ==> ((
            #[trigger] spec_page_data(fbv, page)[i] != 0) <==> (page == 4 * (wi % 2) + k0 && i == wi
                / 2 + 2)),
        spec_page_data(fbv, 4 * (wi % 2) + k0)[wi / 2 + 2] == reverse_bits8(
            word_byte_be(fbv[wi], k0),
        ),
{
    lemma_zero_word_bytes();
    lemma_reverse_bits8_zero();
    assert forall|page: int, i: int|
        0 <= page < PAGE_COUNT as int && 0 <= i < PAGE_DATA_BYTES as int implies ((
    #[trigger] spec_page_data(fbv, page)[i] != 0) <==> (page == 4 * (wi % 2) + k0 && i == wi / 2
        + 2)) by {
        if i >= 2 {
            let c = i - 2;
            let widx = page_word_index(page, c);
            assert(0 <= widx < FRAME_WORDS as int);
            lemma_reverse_bits8_nonzero(word_byte_be(fbv[widx], page_byte_index(page)));
            if widx == wi {
                assert(wi == c * 2 + page / 4);
                assert(page / 4 == wi % 2 && c == wi / 2);
                assert(page == 4 * (page / 4) + page % 4);
            } else {
                assert(fbv[widx] == 0u32);
            }
        }
    }
    assert(spec_page_data(fbv, 4 * (wi % 2) + k0)[wi / 2 + 2] == reverse_bits8(
        word_byte_be(fbv[wi], k0),
    )) by {
        let page = 4 * (wi % 2) + k0;
        let c = wi / 2;
        assert(0 <= page < PAGE_COUNT as int);
        assert(page / 4 == wi % 2 && page % 4 == k0);
        assert(page_word_index(page, c) == wi);
    }
}

/// The byte stream a plan puts on the wire: the bytes of its operations,
/// concatenated in order.
pub open spec fn wire_bytes(ops: Seq<BusOp>) -> Seq<u8>
    decreases ops.len(),
{
    if ops.len() == 0 {
        Seq::empty()
    } else {
        op_bytes(ops.first()) + wire_bytes(ops.drop_first())
    }
}

proof fn lemma_wire_bytes_pointwise(ops1: Seq<BusOp>, ops2: Seq<BusOp>)
    requires
        ops1.len() == ops2.len(),
        forall|i: int| 0 <= i < ops1.len() ==> op_bytes(#[trigger] ops1[i]) == op_bytes(ops2[i]),
    ensures
        wire_bytes(ops1) == wire_bytes(ops2),
    decreases ops1.len(),
{
    if ops1.len() > 0 {
        assert forall|i: int| 0 <= i < ops1.drop_first().len() implies op_bytes(
            #[trigger] ops1.drop_first()[i],
        ) == op_bytes(ops2.drop_first()[i]) by {
            assert(ops1.drop_first()[i] == ops1[i + 1]);
            assert(ops2.drop_first()[i] == ops2[i + 1]);
        }
        lemma_wire_bytes_pointwise(ops1.drop_first(), ops2.drop_first());
    }
}

/// Repainting twice from an unchanged image puts bit-identical byte
/// streams on the wire: any two valid refresh plans for the same image
/// transmit the same bytes.
pub proof fn lemma_refresh_idempotent(ops1: Seq<BusOp>, ops2: Seq<BusOp>, fbv: Seq<u32>)
    requires
        refresh_ops_valid(ops1, fbv),
        refresh_ops_valid(ops2, fbv),
    ensures
        wire_bytes(ops1) == wire_bytes(ops2),
{
    assert forall|i: int| 0 <= i < ops1.len() implies op_bytes(#[trigger] ops1[i]) == op_bytes(
        ops2[i],
    ) by {
        let p = i / 2;
        if i % 2 == 0 {
            assert(i == 2 * p);
            assert(is_page_select(ops1[2 * p], p) && is_page_select(ops2[2 * p], p));
        } else {
            assert(i == 2 * p + 1);
            assert(is_page_payload(ops1[2 * p + 1], fbv, p) && is_page_payload(
                ops2[2 * p + 1],
                fbv,
                p,
            ));
        }
    }
    lemma_wire_bytes_pointwise(ops1, ops2);
}

} // verus!
