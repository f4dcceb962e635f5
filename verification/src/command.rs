//! The binary commands of an image and the bytes that encode them.
//!
//! Every command is a sequence of 32-bit words, and every word is written as
//! four bytes, least significant first. Nothing frames a command but its own
//! fixed number of words.

use vstd::prelude::*;
use crate::error::AisError;
use crate::padding::{padded_size, padded_size_of, padding, padding_of};
use crate::section::SectionRecord;

verus! {

/// The word that opens every image.
pub const MAGIC: u32 = 0x4150_4954;

/// Tag of a command that runs a ROM function with the arguments after it.
pub const FUNCTION_EXECUTE: u32 = 0x5853_590d;

/// Tag of the command that loads a section.
pub const LOAD: u32 = 0x5853_5901;

/// Tag of the command that ends an image and starts execution.
pub const JUMP_CLOSE: u32 = 0x5853_5906;

/// One command of an image.
#[derive(Debug, PartialEq, Eq)]
pub enum Command {
    /// The sentinel that identifies the format.
    Magic,
    /// Configures the hardware through a ROM function. The words after the
    /// tag are board data and are written as they stand.
    FunctionExecute { arguments: Vec<u32> },
    /// Announces a payload of `padded_size` bytes to be placed at `address`.
    Load { address: u32, padded_size: u32 },
    /// Ends the image and starts execution at `entry`.
    JumpClose { entry: u32 },
}

/// The four bytes of a command word, least significant first.
pub open spec fn word_bytes(word: u32) -> Seq<u8> {
    seq![
        (word % 0x100) as u8,
        (word / 0x100 % 0x100) as u8,
        (word / 0x1_0000 % 0x100) as u8,
        (word / 0x100_0000) as u8,
    ]
}

/// The word that four bytes encode, least significant byte first.
pub open spec fn word_of_bytes(bytes: Seq<u8>) -> u32
    recommends
        bytes.len() == 4,
{
    (bytes[0] + 0x100 * bytes[1] + 0x1_0000 * bytes[2] + 0x100_0000 * bytes[3]) as u32
}

/// The bytes of a sequence of command words: byte `i` is byte `i % 4` of
/// word `i / 4`.
pub open spec fn words_bytes(words: Seq<u32>) -> Seq<u8> {
    Seq::new(4 * words.len(), |i: int| word_bytes(words[i / 4])[i % 4])
}

/// `count` zero bytes.
pub open spec fn zeros(count: nat) -> Seq<u8> {
    Seq::new(count, |i: int| 0u8)
}

impl Command {
    /// The words of the command: its tag, then its arguments.
    pub open spec fn words(self) -> Seq<u32> {
        match self {
            Command::Magic => seq![MAGIC],
            Command::FunctionExecute { arguments } => seq![FUNCTION_EXECUTE] + arguments@,
            Command::Load { address, padded_size } => seq![LOAD, address, padded_size],
            Command::JumpClose { entry } => seq![JUMP_CLOSE, entry],
        }
    }

    /// The bytes of the command.
    pub open spec fn bytes(self) -> Seq<u8> {
        words_bytes(self.words())
    }

    /// Appends the bytes of the command to `out`.
    pub fn append_to(&self, out: &mut Vec<u8>)
        ensures
            final(out)@ == old(out)@ + self.bytes(),
    {
        match self {
            Command::Magic => {
                append_word(out, MAGIC);
                proof {
                    lemma_words_bytes_one(MAGIC);
                }
            },
            Command::FunctionExecute { arguments } => {
                append_word(out, FUNCTION_EXECUTE);
                append_words(out, arguments.as_slice());
                proof {
                    lemma_words_bytes_one(FUNCTION_EXECUTE);
                    lemma_words_bytes_concat(seq![FUNCTION_EXECUTE], arguments@);
                    assert(out@ =~= old(out)@ + (word_bytes(FUNCTION_EXECUTE) + words_bytes(
                        arguments@,
                    )));
                }
            },
            Command::Load { address, padded_size } => {
                append_word(out, LOAD);
                append_word(out, *address);
                append_word(out, *padded_size);
            },
            Command::JumpClose { entry } => {
                append_word(out, JUMP_CLOSE);
                append_word(out, *entry);
            },
        }
    }
}

/// The command that announces a section.
pub open spec fn load_command(record: SectionRecord) -> Command {
    Command::Load {
        address: record.address,
        padded_size: padded_size_of(record.size as nat) as u32,
    }
}

/// The command that ends an image whose execution starts at `entry`.
pub open spec fn jump_close(entry: u32) -> Command {
    Command::JumpClose { entry }
}

/// The bytes of the section in the binary.
pub open spec fn section_payload(record: SectionRecord, binary: Seq<u8>) -> Seq<u8> {
    binary.subrange(record.file_offset as int, record.file_offset + record.size)
}

/// Everything a section contributes to an image: the load command, the
/// section's bytes and the zero bytes that pad them to a multiple of four.
pub open spec fn section_block(record: SectionRecord, binary: Seq<u8>) -> Seq<u8> {
    load_command(record).bytes() + section_payload(record, binary) + zeros(
        padding_of(record.size as nat),
    )
}

/// The bytes of `words` are four times as many as the words.
pub proof fn lemma_words_bytes_len(words: Seq<u32>)
    ensures
        words_bytes(words).len() == 4 * words.len(),
{
}

/// A single word has the bytes of that word.
pub proof fn lemma_words_bytes_one(word: u32)
    ensures
        words_bytes(seq![word]) == word_bytes(word),
{
}

/// The bytes of two sequences of words, one after the other, are the bytes
/// of the first followed by the bytes of the second.
pub proof fn lemma_words_bytes_concat(first: Seq<u32>, second: Seq<u32>)
    ensures
        words_bytes(first + second) == words_bytes(first) + words_bytes(second),
{
}

/// A word is four bytes, and reading them back gives the word.
pub proof fn lemma_word_round_trip(word: u32)
    ensures
        word_bytes(word).len() == 4,
        word_of_bytes(word_bytes(word)) == word,
{
}

/// Appends a command word to `out`.
pub fn append_word(out: &mut Vec<u8>, word: u32)
    ensures
        final(out)@ == old(out)@ + word_bytes(word),
{
    out.push((word % 0x100) as u8);
    out.push((word / 0x100 % 0x100) as u8);
    out.push((word / 0x1_0000 % 0x100) as u8);
    out.push((word / 0x100_0000) as u8);
}

/// Appends a sequence of command words to `out`.
pub fn append_words(out: &mut Vec<u8>, words: &[u32])
    ensures
        final(out)@ == old(out)@ + words_bytes(words@),
{
    let mut i: usize = 0;
    while i < words.len()
        invariant
            i <= words@.len(),
            out@ == old(out)@ + words_bytes(words@.take(i as int)),
        decreases words@.len() - i,
    {
        proof {
            lemma_words_bytes_one(words@[i as int]);
            lemma_words_bytes_concat(words@.take(i as int), seq![words@[i as int]]);
        }
        append_word(out, words[i]);
        i += 1;
    }
}

/// Appends `count` zero bytes to `out`.
pub fn append_zeros(out: &mut Vec<u8>, count: u32)
    ensures
        final(out)@ == old(out)@ + zeros(count as nat),
{
    let mut i: u32 = 0;
    while i < count
        invariant
            i <= count,
            out@ == old(out)@ + zeros(i as nat),
        decreases count - i,
    {
        out.push(0u8);
        i += 1;
    }
}

/// Appends the block of a section to `out`, reading the section's bytes from
/// `binary`. Fails, leaving `out` as it was, when the section reaches beyond
/// the end of the binary. A section within the binary has to have a padded
/// size that fits in a command word.
pub fn append_section(out: &mut Vec<u8>, record: &SectionRecord, binary: &[u8]) -> (r: Result<
    (),
    AisError,
>)
    requires
        record.fits(binary@.len()),
    ensures
        record.in_bounds(binary@.len()) ==> r == Ok::<(), AisError>(()) && final(out)@ == old(out)@
            + section_block(*record, binary@),
        !record.in_bounds(binary@.len()) ==> r == Err::<(), AisError>(AisError::TruncatedInput)
            && final(out)@ == old(out)@,
{
    if !record.is_in_bounds(binary.len()) {
        return Err(AisError::TruncatedInput);
    }
    let start = record.file_offset as usize;
    let end = start + record.size as usize;
    let load = Command::Load { address: record.address, padded_size: padded_size(record.size) };
    load.append_to(out);
    let payload = vstd::slice::slice_subrange(binary, start, end);
    out.extend_from_slice(payload);
    append_zeros(out, padding(record.size));
    Ok(())
}

/// Encodes one section: its load command, its bytes from `binary` and its
/// padding. Fails when the section reaches beyond the end of the binary. A
/// section within the binary has to have a padded size that fits in a
/// command word.
pub fn encode_section(record: &SectionRecord, binary: &[u8]) -> (r: Result<Vec<u8>, AisError>)
    requires
        record.fits(binary@.len()),
    ensures
        record.in_bounds(binary@.len()) ==> r is Ok && r->Ok_0@ == section_block(*record, binary@),
        !record.in_bounds(binary@.len()) ==> r == Err::<Vec<u8>, AisError>(
            AisError::TruncatedInput,
        ),
{
    let mut out: Vec<u8> = Vec::new();
    match append_section(&mut out, record, binary) {
        Ok(()) => Ok(out),
        Err(e) => Err(e),
    }
}

/// The layout of a section's block: twelve bytes that hold the tag, the
/// address and the padded size, then the section's bytes exactly as they
/// stand in the binary from the file offset on, then zero bytes up to the
/// padded size.
pub proof fn lemma_section_block_layout(record: SectionRecord, binary: Seq<u8>)
    requires
        record.encodable(),
        record.in_bounds(binary.len()),
    ensures
        section_block(record, binary).len() == 12 + padded_size_of(record.size as nat),
        word_of_bytes(section_block(record, binary).subrange(0, 4)) == LOAD,
        word_of_bytes(section_block(record, binary).subrange(4, 8)) == record.address,
        word_of_bytes(section_block(record, binary).subrange(8, 12)) == padded_size_of(
            record.size as nat,
        ),
        section_block(record, binary).subrange(12, 12 + record.size) == binary.subrange(
            record.file_offset as int,
            record.file_offset + record.size,
        ),
        section_block(record, binary).subrange(
            12 + record.size,
            12 + padded_size_of(record.size as nat) as int,
        ) == zeros(padding_of(record.size as nat)),
{
    let block = section_block(record, binary);
    let padded = padded_size_of(record.size as nat) as u32;
    lemma_word_round_trip(LOAD);
    lemma_word_round_trip(record.address);
    lemma_word_round_trip(padded);
    assert(block.subrange(12 + record.size, 12 + padded_size_of(record.size as nat) as int)
        =~= zeros(padding_of(record.size as nat)));
}

} // verus!
