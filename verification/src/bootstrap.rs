//! Memory-image initialization performed once at reset, before any other
//! code runs, and the interrupt vector table the processor dispatches from.
//!
//! The hardware side of reset (the linker symbols bounding each region, the
//! volatile word writes, the final jump to the application entry point)
//! cannot be expressed here; these functions carry the logic of the two
//! copy loops over plain word vectors, so the loops themselves are proved
//! to establish the memory-image invariant: the zero-initialized region
//! reads as zero, the pre-initialized region is identical to its source
//! image.

use vstd::prelude::*;

verus! {

/// Word-by-word zero-fill of the zero-initialized region.  A zero-length
/// region performs no writes.
pub fn zero_region(region: &mut Vec<u32>)
    ensures
        final(region)@.len() == old(region)@.len(),
        forall|i: int| 0 <= i < final(region)@.len() ==> final(region)@[i] == 0u32,
{
    let mut idx: usize = 0;
    while idx < region.len()
        invariant
            idx <= region@.len(),
            region@.len() == old(region)@.len(),
            forall|i: int| 0 <= i < idx ==> region@[i] == 0u32,
        decreases region@.len() - idx,
    {
        region.set(idx, 0);
        idx += 1;
    }
}

/// Word-by-word copy of the pre-initialized data image from its storage
/// location into the writable data region.  The copy stops at the end of
/// the destination region, as the reset code does; the source image must
/// cover at least that many words.  A zero-length region performs no
/// writes.
pub fn copy_image(region: &mut Vec<u32>, image: &Vec<u32>)
    requires
        old(region)@.len() <= image@.len(),
    ensures
        final(region)@.len() == old(region)@.len(),
        forall|i: int| 0 <= i < final(region)@.len() ==> final(region)@[i] == image@[i],
{
    let mut idx: usize = 0;
    while idx < region.len()
        invariant
            idx <= region@.len(),
            region@.len() == old(region)@.len(),
            region@.len() <= image@.len(),
            forall|i: int| 0 <= i < idx ==> region@[i] == image@[i],
        decreases region@.len() - idx,
    {
        region.set(idx, image[idx]);
        idx += 1;
    }
}

/// The whole memory-image part of the reset handler: zero the
/// zero-initialized region, copy the data image into the writable data
/// region.  After it, both region invariants hold at once; control then
/// passes to the application entry point and never returns here.
pub fn reset_handler(bss: &mut Vec<u32>, data: &mut Vec<u32>, data_image: &Vec<u32>)
    requires
        old(data)@.len() <= data_image@.len(),
    ensures
        final(bss)@.len() == old(bss)@.len(),
        forall|i: int| 0 <= i < final(bss)@.len() ==> final(bss)@[i] == 0u32,
        final(data)@.len() == old(data)@.len(),
        forall|i: int| 0 <= i < final(data)@.len() ==> final(data)@[i] == data_image@[i],
{
    zero_region(bss);
    copy_image(data, data_image);
}

/// Entry points the hardware may dispatch to, one per populated line of the
/// interrupt vector table.  The table is consulted only by the interrupt
/// controller, never by software, so an entry point is identified here by
/// name alone; the timer handler `Tim6` is the one the firmware installs
/// code behind.
#[derive(Clone, Copy, Debug, PartialEq, Eq, Structural)]
pub enum InterruptHandler {
    WindowWatchdog,
    Rtc,
    Flash,
    Rcc,
    Exti0To1,
    Exti2To3,
    Exti4To15,
    DmaCh1,
    DmaCh2To3,
    DmaCh4To5,
    Adc,
    Tim1BrkUpTrgCom,
    Tim1Cc,
    Tim3,
    Tim6,
    Tim14,
    Tim15,
    Tim16,
    Tim17,
    I2c1,
    I2c2,
    Spi1,
    Spi2,
    Usart1,
    Usart2,
    Usart3To6,
    Usb,
}

/// Number of lines the interrupt controller dispatches on.
pub const VECTOR_TABLE_LINES: usize = 32;

/// The interrupt line the keyboard-scan timer fires on; the firmware
/// enables exactly this line after installing the timer.
pub const TIM6_INTERRUPT_LINE: usize = 17;

/// The fixed vector table layout: which handler each of the 32 interrupt
/// lines dispatches to, `None` on the reserved lines (1, 8, 15, 18 and 30).
pub open spec fn spec_vector_slot(line: int) -> Option<InterruptHandler> {
    if line == 0 {
        Some(InterruptHandler::WindowWatchdog)
    } else if line == 2 {
        Some(InterruptHandler::Rtc)
    } else if line == 3 {
        Some(InterruptHandler::Flash)
    } else if line == 4 {
        Some(InterruptHandler::Rcc)
    } else if line == 5 {
        Some(InterruptHandler::Exti0To1)
    } else if line == 6 {
        Some(InterruptHandler::Exti2To3)
    } else if line == 7 {
        Some(InterruptHandler::Exti4To15)
    } else if line == 9 {
        Some(InterruptHandler::DmaCh1)
    } else if line == 10 {
        Some(InterruptHandler::DmaCh2To3)
    } else if line == 11 {
        Some(InterruptHandler::DmaCh4To5)
    } else if line == 12 {
        Some(InterruptHandler::Adc)
    } else if line == 13 {
        Some(InterruptHandler::Tim1BrkUpTrgCom)
    } else if line == 14 {
        Some(InterruptHandler::Tim1Cc)
    } else if line == 16 {
        Some(InterruptHandler::Tim3)
    } else if line == 17 {
        Some(InterruptHandler::Tim6)
    } else if line == 19 {
        Some(InterruptHandler::Tim14)
    } else if line == 20 {
        Some(InterruptHandler::Tim15)
    } else if line == 21 {
        Some(InterruptHandler::Tim16)
    } else if line == 22 {
        Some(InterruptHandler::Tim17)
    } else if line == 23 {
        Some(InterruptHandler::I2c1)
    } else if line == 24 {
        Some(InterruptHandler::I2c2)
    } else if line == 25 {
        Some(InterruptHandler::Spi1)
    } else if line == 26 {
        Some(InterruptHandler::Spi2)
    } else if line == 27 {
        Some(InterruptHandler::Usart1)
    } else if line == 28 {
        Some(InterruptHandler::Usart2)
    } else if line == 29 {
        Some(InterruptHandler::Usart3To6)
    } else if line == 31 {
        Some(InterruptHandler::Usb)
    } else {
        None
    }
}

/// The handler, if any, on one interrupt line.
pub fn vector_slot(line: usize) -> (r: Option<InterruptHandler>)
    ensures
        r == spec_vector_slot(line as int),
{
    if line == 0 {
        Some(InterruptHandler::WindowWatchdog)
    } else if line == 2 {
        Some(InterruptHandler::Rtc)
    } else if line == 3 {
        Some(InterruptHandler::Flash)
    } else if line == 4 {
        Some(InterruptHandler::Rcc)
    } else if line == 5 {
        Some(InterruptHandler::Exti0To1)
    } else if line == 6 {
        Some(InterruptHandler::Exti2To3)
    } else if line == 7 {
        Some(InterruptHandler::Exti4To15)
    } else if line == 9 {
        Some(InterruptHandler::DmaCh1)
    } else if line == 10 {
        Some(InterruptHandler::DmaCh2To3)
    } else if line == 11 {
        Some(InterruptHandler::DmaCh4To5)
    } else if line == 12 {
        Some(InterruptHandler::Adc)
    } else if line == 13 {
        Some(InterruptHandler::Tim1BrkUpTrgCom)
    } else if line == 14 {
        Some(InterruptHandler::Tim1Cc)
    } else if line == 16 {
        Some(InterruptHandler::Tim3)
    } else if line == 17 {
        Some(InterruptHandler::Tim6)
    } else if line == 19 {
        Some(InterruptHandler::Tim14)
    } else if line == 20 {
        Some(InterruptHandler::Tim15)
    } else if line == 21 {
        Some(InterruptHandler::Tim16)
    } else if line == 22 {
        Some(InterruptHandler::Tim17)
    } else if line == 23 {
        Some(InterruptHandler::I2c1)
    } else if line == 24 {
        Some(InterruptHandler::I2c2)
    } else if line == 25 {
        Some(InterruptHandler::Spi1)
    } else if line == 26 {
        Some(InterruptHandler::Spi2)
    } else if line == 27 {
        Some(InterruptHandler::Usart1)
    } else if line == 28 {
        Some(InterruptHandler::Usart2)
    } else if line == 29 {
        Some(InterruptHandler::Usart3To6)
    } else if line == 31 {
        Some(InterruptHandler::Usb)
    } else {
        None
    }
}

/// Builds the whole vector table, one optional entry point per interrupt
/// line, populated once and immutable thereafter.
pub fn interrupt_vector_table() -> (table: Vec<Option<InterruptHandler>>)
    ensures
        table@.len() == VECTOR_TABLE_LINES as int,
        forall|i: int| 0 <= i < table@.len() ==> table@[i] == spec_vector_slot(i),
{
    let mut table: Vec<Option<InterruptHandler>> = Vec::new();
    let mut line: usize = 0;
    while line < VECTOR_TABLE_LINES
        invariant
            line <= VECTOR_TABLE_LINES as int,
            table@.len() == line as int,
            forall|i: int| 0 <= i < line ==> table@[i] == spec_vector_slot(i),
        decreases VECTOR_TABLE_LINES - line,
    {
        table.push(vector_slot(line));
        line += 1;
    }
    table
}

} // verus!
