//! The board's bring-up commands that open an image, one table per boot
//! medium. The words are board data: they are written out as they stand.

use vstd::prelude::*;
use crate::command::{FUNCTION_EXECUTE, MAGIC};

verus! {

/// The words that open an image booted from NAND: the magic word, then the
/// configuration of PLL0, of the mDDR/DDR2 controller and of EMIFA.
pub const NAND_PREAMBLE: [u32; 22] = [
    MAGIC,
    FUNCTION_EXECUTE,
    0x0002_0000,
    0x0018_0001,
    0x0000_0205,
    FUNCTION_EXECUTE,
    0x0008_0003,
    0x2002_0001,
    0x0000_0002,
    0x0000_00c4,
    0x0207_4622,
    0x1291_29c8,
    0x380f_7000,
    0x0000_040d,
    0x0000_0500,
    FUNCTION_EXECUTE,
    0x0005_0005,
    0x0000_0000,
    0x0812_21ac,
    0x0000_0000,
    0x0000_0000,
    0x0000_0002,
];

/// The words that open an image booted over UART: the magic word, then the
/// configuration of the PLL and clocks and of the mDDR/DDR2 controller.
pub const UART_PREAMBLE: [u32; 16] = [
    MAGIC,
    FUNCTION_EXECUTE,
    0x0003_0006,
    0x0018_0001,
    0x0000_0b05,
    0x0001_0064,
    FUNCTION_EXECUTE,
    0x0008_0003,
    0x1801_0101,
    0x0000_0002,
    0x0000_0003,
    0x0607_4622,
    0x20da_3291,
    0x4294_8941,
    0x0000_0492,
    0x0000_0500,
];

/// The NAND table as a vector.
pub fn nand_preamble() -> (words: Vec<u32>)
    ensures
        words@ == NAND_PREAMBLE@,
{
    vstd::slice::slice_to_vec(NAND_PREAMBLE.as_slice())
}

/// The UART table as a vector.
pub fn uart_preamble() -> (words: Vec<u32>)
    ensures
        words@ == UART_PREAMBLE@,
{
    vstd::slice::slice_to_vec(UART_PREAMBLE.as_slice())
}

} // verus!
