//! What a conversion run is configured with.

use vstd::prelude::*;
use crate::preamble::{nand_preamble, uart_preamble, NAND_PREAMBLE, UART_PREAMBLE};

verus! {

/// The command that lists the section table of a binary; the binary's path
/// is appended to it.
pub const READELF: &'static str = "arm-linux-readelf -S";

/// Path of the binary to convert.
pub const U_BOOT: &'static str = "u-boot";

/// Path of the image for booting from NAND.
pub const AIS_NAND_FILE: &'static str = "u-boot_nand.ais";

/// Path of the image for booting over UART.
pub const AIS_UART_FILE: &'static str = "u-boot_uart.ais";

/// The settings of one conversion run.
#[derive(Debug, PartialEq, Eq)]
pub struct Config {
    /// The command that lists the section table of a binary.
    pub tool_command: String,
    /// Path of the binary to convert.
    pub input_path: String,
    /// Path of the image for booting from NAND.
    pub nand_output_path: String,
    /// Path of the image for booting over UART.
    pub uart_output_path: String,
    /// The words that open the NAND image.
    pub nand_preamble: Vec<u32>,
    /// The words that open the UART image.
    pub uart_preamble: Vec<u32>,
}

impl Default for Config {
    /// The settings for the board that the preamble tables describe.
    fn default() -> (config: Config)
        ensures
            config.tool_command@ == READELF@,
            config.input_path@ == U_BOOT@,
            config.nand_output_path@ == AIS_NAND_FILE@,
            config.uart_output_path@ == AIS_UART_FILE@,
            config.nand_preamble@ == NAND_PREAMBLE@,
            config.uart_preamble@ == UART_PREAMBLE@,
    {
        Config {
            tool_command: READELF.to_owned(),
            input_path: U_BOOT.to_owned(),
            nand_output_path: AIS_NAND_FILE.to_owned(),
            uart_output_path: AIS_UART_FILE.to_owned(),
            nand_preamble: nand_preamble(),
            uart_preamble: uart_preamble(),
        }
    }
}

} // verus!
