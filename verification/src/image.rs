//! Assembly of whole images: preamble, section blocks, closing command.

use vstd::prelude::*;
use crate::command::{
    append_section, append_words, jump_close, section_block, word_bytes, words_bytes, Command,
    MAGIC,
};
use crate::config::Config;
use crate::error::AisError;
use crate::padding::padded_size_of;
use crate::preamble::{NAND_PREAMBLE, UART_PREAMBLE};
use crate::section::{all_fit, all_in_bounds, entry_address_of, SectionName, SectionRecord};

verus! {

/// The blocks of a sequence of sections, one after the other.
pub open spec fn sections_bytes(records: Seq<SectionRecord>, binary: Seq<u8>) -> Seq<u8>
    decreases records.len(),
{
    if records.len() == 0 {
        Seq::empty()
    } else {
        sections_bytes(records.drop_last(), binary) + section_block(records.last(), binary)
    }
}

/// What follows the preamble in an image: the section blocks and the
/// closing command with the entry address.
pub open spec fn image_body(records: Seq<SectionRecord>, binary: Seq<u8>) -> Seq<u8> {
    sections_bytes(records, binary) + jump_close(entry_address_of(records)).bytes()
}

/// A whole image: the preamble, then the body.
pub open spec fn image_bytes(preamble: Seq<u32>, records: Seq<SectionRecord>, binary: Seq<u8>) -> Seq<
    u8,
> {
    words_bytes(preamble) + image_body(records, binary)
}

/// How far the writing of an image has come.
#[derive(Clone, Copy, Debug, PartialEq, Eq, Structural)]
pub enum Stage {
    /// Nothing has been written.
    Start,
    /// The preamble has been written, no section yet.
    PreambleWritten,
    /// At least one section has been written.
    SectionWritten,
    /// The closing command has been written; the image is complete.
    Terminated,
}

/// Writes one image, step by step and in the only order that gives a valid
/// image: the preamble once, then any number of sections, then the closing
/// command once.
pub struct ImageWriter {
    bytes: Vec<u8>,
    stage: Stage,
    entry: u32,
}

impl ImageWriter {
    /// The bytes written so far.
    pub closed spec fn bytes(&self) -> Seq<u8> {
        self.bytes@
    }

    /// How far the writing has come.
    pub closed spec fn stage(&self) -> Stage {
        self.stage
    }

    /// The address of the last `.text` section written so far, or zero.
    pub closed spec fn entry(&self) -> u32 {
        self.entry
    }

    /// Whether a section or the closing command may be written next.
    pub open spec fn in_sections(&self) -> bool {
        self.stage() == Stage::PreambleWritten || self.stage() == Stage::SectionWritten
    }

    /// A writer that has written nothing.
    pub fn new() -> (writer: ImageWriter)
        ensures
            writer.bytes() == Seq::<u8>::empty(),
            writer.stage() == Stage::Start,
            writer.entry() == 0,
    {
        ImageWriter { bytes: Vec::new(), stage: Stage::Start, entry: 0 }
    }

    /// Reports how far the writing has come.
    pub fn current_stage(&self) -> (stage: Stage)
        ensures
            stage == self.stage(),
    {
        self.stage
    }

    /// Writes the preamble words as they stand.
    pub fn write_preamble(&mut self, preamble: &[u32])
        requires
            old(self).stage() == Stage::Start,
        ensures
            final(self).bytes() == old(self).bytes() + words_bytes(preamble@),
            final(self).stage() == Stage::PreambleWritten,
            final(self).entry() == old(self).entry(),
    {
        append_words(&mut self.bytes, preamble);
        self.stage = Stage::PreambleWritten;
    }

    /// Writes the block of one section and, for a `.text` section, takes its
    /// address as the entry address. Fails, changing nothing, when the
    /// section reaches beyond the end of the binary. A section within the
    /// binary has to have a padded size that fits in a command word.
    pub fn write_section(&mut self, record: &SectionRecord, binary: &[u8]) -> (r: Result<
        (),
        AisError,
    >)
        requires
            old(self).in_sections(),
            record.fits(binary@.len()),
        ensures
            record.in_bounds(binary@.len()) ==> {
                &&& r == Ok::<(), AisError>(())
                &&& final(self).bytes() == old(self).bytes() + section_block(*record, binary@)
                &&& final(self).stage() == Stage::SectionWritten
                &&& final(self).entry() == if record.name == SectionName::Text {
                    record.address
                } else {
                    old(self).entry()
                }
            },
            !record.in_bounds(binary@.len()) ==> {
                &&& r == Err::<(), AisError>(AisError::TruncatedInput)
                &&& final(self).bytes() == old(self).bytes()
                &&& final(self).stage() == old(self).stage()
                &&& final(self).entry() == old(self).entry()
            },
    {
        match append_section(&mut self.bytes, record, binary) {
            Ok(()) => {
                if record.name == SectionName::Text {
                    self.entry = record.address;
                }
                self.stage = Stage::SectionWritten;
                Ok(())
            },
            Err(e) => Err(e),
        }
    }

    /// Writes the closing command with the entry address.
    pub fn finish(&mut self)
        requires
            old(self).in_sections(),
        ensures
            final(self).bytes() == old(self).bytes() + jump_close(old(self).entry()).bytes(),
            final(self).stage() == Stage::Terminated,
            final(self).entry() == old(self).entry(),
    {
        let close = Command::JumpClose { entry: self.entry };
        close.append_to(&mut self.bytes);
        self.stage = Stage::Terminated;
    }

    /// Hands out the bytes of the complete image.
    pub fn into_bytes(self) -> (bytes: Vec<u8>)
        requires
            self.stage() == Stage::Terminated,
        ensures
            bytes@ == self.bytes(),
    {
        self.bytes
    }
}

/// Assembles one image: the preamble, the block of each record in order,
/// and the closing command. Fails when a section reaches beyond the end of
/// the binary. Every section within the binary has to have a padded size
/// that fits in a command word.
pub fn assemble(preamble: &[u32], records: &[SectionRecord], binary: &[u8]) -> (r: Result<
    Vec<u8>,
    AisError,
>)
    requires
        all_fit(records@, binary@.len()),
    ensures
        all_in_bounds(records@, binary@.len()) ==> r is Ok && r->Ok_0@ == image_bytes(
            preamble@,
            records@,
            binary@,
        ),
        !all_in_bounds(records@, binary@.len()) ==> r == Err::<Vec<u8>, AisError>(
            AisError::TruncatedInput,
        ),
{
    let mut writer = ImageWriter::new();
    writer.write_preamble(preamble);
    let mut i: usize = 0;
    while i < records.len()
        invariant
            i <= records@.len(),
            all_fit(records@, binary@.len()),
            writer.in_sections(),
            all_in_bounds(records@.take(i as int), binary@.len()),
            writer.bytes() == words_bytes(preamble@) + sections_bytes(
                records@.take(i as int),
                binary@,
            ),
            writer.entry() == entry_address_of(records@.take(i as int)),
        decreases records@.len() - i,
    {
        assert(records@.take(i + 1).drop_last() =~= records@.take(i as int));
        match writer.write_section(&records[i], binary) {
            Ok(()) => {},
            Err(e) => {
                return Err(e);
            },
        }
        i += 1;
    }
    assert(records@.take(i as int) =~= records@);
    writer.finish();
    Ok(writer.into_bytes())
}

/// The two images of one binary.
#[derive(Debug, PartialEq, Eq)]
pub struct ImagePair {
    /// The image for booting from NAND.
    pub nand: Vec<u8>,
    /// The image for booting over UART.
    pub uart: Vec<u8>,
}

/// Builds the NAND and the UART image of a binary from the same records.
/// Fails when a section reaches beyond the end of the binary. Every section
/// within the binary has to have a padded size that fits in a command word.
pub fn build_images(config: &Config, records: &[SectionRecord], binary: &[u8]) -> (r: Result<
    ImagePair,
    AisError,
>)
    requires
        all_fit(records@, binary@.len()),
    ensures
        all_in_bounds(records@, binary@.len()) ==> {
            &&& r is Ok
            &&& r->Ok_0.nand@ == image_bytes(config.nand_preamble@, records@, binary@)
            &&& r->Ok_0.uart@ == image_bytes(config.uart_preamble@, records@, binary@)
            &&& r->Ok_0.nand@.skip(4 * config.nand_preamble@.len() as int) == r->Ok_0.uart@.skip(
                4 * config.uart_preamble@.len() as int,
            )
        },
        !all_in_bounds(records@, binary@.len()) ==> r is Err && r->Err_0
            == AisError::TruncatedInput,
{
    let nand = match assemble(config.nand_preamble.as_slice(), records, binary) {
        Ok(bytes) => bytes,
        Err(e) => {
            return Err(e);
        },
    };
    let uart = match assemble(config.uart_preamble.as_slice(), records, binary) {
        Ok(bytes) => bytes,
        Err(e) => {
            return Err(e);
        },
    };
    proof {
        lemma_images_share_body(config.nand_preamble@, config.uart_preamble@, records@, binary@);
    }
    Ok(ImagePair { nand, uart })
}

/// Two images of the same records and binary differ in their preambles
/// only: without them they are the same bytes.
pub proof fn lemma_images_share_body(
    first_preamble: Seq<u32>,
    second_preamble: Seq<u32>,
    records: Seq<SectionRecord>,
    binary: Seq<u8>,
)
    ensures
        image_bytes(first_preamble, records, binary).skip(4 * first_preamble.len() as int)
            == image_body(records, binary),
        image_bytes(second_preamble, records, binary).skip(4 * second_preamble.len() as int)
            == image_body(records, binary),
        image_bytes(first_preamble, records, binary).skip(4 * first_preamble.len() as int)
            == image_bytes(second_preamble, records, binary).skip(4 * second_preamble.len() as int),
{
    assert(image_bytes(first_preamble, records, binary).skip(4 * first_preamble.len() as int)
        =~= image_body(records, binary));
    assert(image_bytes(second_preamble, records, binary).skip(4 * second_preamble.len() as int)
        =~= image_body(records, binary));
}

/// An image ends with the closing command, which carries the entry address
/// of its records.
pub proof fn lemma_image_ends_with_jump_close(
    preamble: Seq<u32>,
    records: Seq<SectionRecord>,
    binary: Seq<u8>,
)
    ensures
        image_bytes(preamble, records, binary).len() >= 8,
        image_bytes(preamble, records, binary).skip(
            image_bytes(preamble, records, binary).len() - 8,
        ) == jump_close(entry_address_of(records)).bytes(),
{
}

/// An image opens with the words of its preamble; with either of the board's
/// tables the first of them is the magic word.
pub proof fn lemma_image_opens_with_preamble(
    preamble: Seq<u32>,
    records: Seq<SectionRecord>,
    binary: Seq<u8>,
)
    ensures
        image_bytes(preamble, records, binary).take(4 * preamble.len() as int) == words_bytes(
            preamble,
        ),
        preamble == NAND_PREAMBLE@ || preamble == UART_PREAMBLE@ ==> image_bytes(
            preamble,
            records,
            binary,
        ).take(4) == word_bytes(MAGIC),
{
}

/// The blocks of sections that lie within the binary fill a whole number of
/// words, and so does the image built of them.
pub proof fn lemma_image_is_whole_words(
    preamble: Seq<u32>,
    records: Seq<SectionRecord>,
    binary: Seq<u8>,
)
    requires
        all_in_bounds(records, binary.len()),
    ensures
        sections_bytes(records, binary).len() % 4 == 0,
        image_bytes(preamble, records, binary).len() == 4 * preamble.len() + sections_bytes(
            records,
            binary,
        ).len() + 8,
        image_bytes(preamble, records, binary).len() % 4 == 0,
    decreases records.len(),
{
    if records.len() > 0 {
        let front = records.drop_last();
        assert(forall|i: int| 0 <= i < front.len() ==> front[i] == records[i]);
        lemma_image_is_whole_words(preamble, front, binary);
        assert(records.last() == records[records.len() - 1]);
        assert(section_block(records.last(), binary).len() == 12 + padded_size_of(
            records.last().size as nat,
        ));
    }
}

} // verus!
