//! Builds AIS boot images from the loadable sections of a firmware binary.
//!
//! An AIS image is a stream of little-endian 32-bit command words that a ROM
//! bootloader executes: a board-specific preamble, one `LOAD` command per
//! section followed by the section's bytes padded to a word boundary, and a
//! closing `JUMP_CLOSE` command that names the entry point.
//!
//! The way from a binary to its images has three steps. `parser` reads the
//! section records out of the text of the binary's section table, `command`
//! encodes single commands, and `image` puts whole images together, once for
//! each boot medium. Running the tool that prints the section table and
//! reading and writing files is left to the caller.
//!
//! All of this is verified, with one exception: lines are searched for the
//! section pattern by the `regex` crate, whose work `matcher` takes on trust.

pub mod command;
pub mod config;
pub mod error;
pub mod hexnum;
pub mod image;
pub mod matcher;
pub mod padding;
pub mod parser;
pub mod preamble;
pub mod section;

pub use command::{encode_section, Command, FUNCTION_EXECUTE, JUMP_CLOSE, LOAD, MAGIC};
pub use config::Config;
pub use error::AisError;
pub use hexnum::{hex, parse_hex};
pub use image::{assemble, build_images, ImagePair, ImageWriter, Stage};
pub use padding::{padded_size, padding, MAX_SECTION_SIZE};
pub use matcher::Matcher;
pub use parser::{parse_line, parse_table, SectionMatcher, SECTION_PATTERN};
pub use preamble::{NAND_PREAMBLE, UART_PREAMBLE};
pub use section::{entry_address, records_fit, SectionName, SectionRecord};
