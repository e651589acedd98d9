use calc_core::display::display_init_packet;
use calc_core::display::page_command;
use calc_core::display::page_data;
use calc_core::display::transfer_outcome;
use calc_core::display::update_screen;
use calc_core::display::BusOp;
use calc_core::display::Framebuffer;
use calc_core::display::COLUMN_COUNT;
use calc_core::display::DISPLAY_BUS_ADDRESS;
use calc_core::display::DISPLAY_DATA_REGISTER;
use calc_core::display::FRAME_WORDS;
use calc_core::display::PAGE_COUNT;
use calc_core::display::PAGE_DATA_BYTES;

fn op_payload(op: &BusOp) -> Vec<u8> {
    match op {
        BusOp::Send { bytes, .. } => bytes.clone(),
        BusOp::Framed { bytes, .. } => bytes.clone(),
    }
}

fn wire(ops: &[BusOp]) -> Vec<u8> {
    let mut all = Vec::new();
    for op in ops {
        all.extend_from_slice(&op_payload(op));
    }
    all
}

#[test]
fn blank_image_issues_eight_page_selects_and_zero_payloads() {
    let fb = Framebuffer::new();
    let ops = update_screen(&fb);
    assert_eq!(ops.len(), 2 * PAGE_COUNT);
    for p in 0..PAGE_COUNT {
        match &ops[2 * p] {
            BusOp::Send { address, bytes } => {
                assert_eq!(*address, DISPLAY_BUS_ADDRESS);
                assert_eq!(bytes, &vec![0x00, 0xb0 | p as u8, 0x00, 0x10]);
            }
            other => panic!("page {} should begin with a page-select command, got {:?} bytes", p, op_payload(other).len()),
        }
        match &ops[2 * p + 1] {
            BusOp::Framed { address, register, bytes } => {
                assert_eq!(*address, DISPLAY_BUS_ADDRESS);
                assert_eq!(*register, DISPLAY_DATA_REGISTER);
                assert_eq!(bytes.len(), PAGE_DATA_BYTES);
                assert!(bytes.iter().all(|b| *b == 0));
            }
            _ => panic!("page {} should carry a framed payload", p),
        }
    }
}

#[test]
fn single_bit_transmits_one_reversed_byte_at_the_indexed_place() {
    // Page 6, column 5: word index 5*2 + 6/4 = 11, big-endian byte 6%4 = 2.
    let mut fb = Framebuffer::new();
    fb.set_word(11, 0x0000_8000);
    let ops = update_screen(&fb);
    let mut nonzero = Vec::new();
    for p in 0..PAGE_COUNT {
        let bytes = op_payload(&ops[2 * p + 1]);
        for (i, b) in bytes.iter().enumerate() {
            if *b != 0 {
                nonzero.push((p, i, *b));
            }
        }
    }
    // 0x80 bit-reversed is 0x01, transmitted after the two padding bytes.
    assert_eq!(nonzero, vec![(6, 2 + 5, 0x01)]);
}

#[test]
fn column_byte_is_bit_reversed() {
    // Page 0, column 0: word index 0, big-endian byte 0 is 0xe0;
    // reversed bit order gives 0x07.
    let mut fb = Framebuffer::new();
    fb.set_word(0, 0xe000_0000);
    let ops = update_screen(&fb);
    let bytes = op_payload(&ops[1]);
    assert_eq!(bytes[2], 0x07);
    assert!(bytes[3..].iter().all(|b| *b == 0));
}

#[test]
fn page_command_bytes_are_exact() {
    assert_eq!(page_command(0), vec![0x00, 0xb0, 0x00, 0x10]);
    assert_eq!(page_command(7), vec![0x00, 0xb7, 0x00, 0x10]);
}

#[test]
fn page_data_has_two_padding_bytes_then_all_columns() {
    let fb = Framebuffer::new();
    let data = page_data(&fb, 3);
    assert_eq!(data.len(), 2 + COLUMN_COUNT);
    assert_eq!(data[0], 0);
    assert_eq!(data[1], 0);
}

#[test]
fn refresh_is_idempotent_on_unchanged_framebuffer() {
    let mut fb = Framebuffer::new();
    fb.set_word(0, 0x12345678);
    fb.set_word(255, 0x9abcdef0);
    let first = update_screen(&fb);
    let second = update_screen(&fb);
    assert_eq!(wire(&first), wire(&second));
}

#[test]
fn framebuffer_starts_blank_and_updates_by_word() {
    let mut fb = Framebuffer::new();
    assert_eq!(fb.word(0), 0);
    assert_eq!(fb.word(FRAME_WORDS - 1), 0);
    fb.set_word(17, 42);
    assert_eq!(fb.word(17), 42);
    assert_eq!(fb.word(16), 0);
}

#[test]
fn init_packet_is_bit_exact() {
    assert_eq!(
        display_init_packet(),
        vec![
            0x00, 0xa8, 0x3f, 0xd3, 0x00, 0x40, 0xa0, 0xc0, 0xda, 0x12, 0x81, 0x7f, 0xa4, 0xd5,
            0x80, 0x8d, 0x14, 0xaf
        ]
    );
}

#[test]
fn transfer_outcome_is_ok_only_when_every_operation_succeeded() {
    assert!(transfer_outcome(&Vec::new()));
    assert!(transfer_outcome(&vec![true, true, true]));
    assert!(!transfer_outcome(&vec![true, false, true]));
    assert!(!transfer_outcome(&vec![false]));
}
