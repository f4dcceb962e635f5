//! Reading section records out of the lines of a section table.
//!
//! Which lines describe a section, and where their fields stand, is for the
//! pattern search of `matcher` to say. What a match means is decided here:
//! the name and the numbers of the record, and when a line is malformed.

use vstd::prelude::*;
use crate::error::AisError;
use crate::hexnum::{hex_text_value, parse_hex};
use crate::matcher::{captures_view, groups_view, regex_captures, Matcher};
use crate::section::{parse_section_name, section_name_of, SectionRecord};

verus! {

/// The pattern of a line that describes a section of interest, to be found
/// anywhere in the line: a dot and the section's name, the type `PROGBITS`,
/// then address, file offset and size in hexadecimal, each followed by white
/// space or, for the size, the end of the line. The name and the three
/// numbers are capture groups 1 to 4.
pub const SECTION_PATTERN: &'static str =
    r"\.(text|rodata|data|u_boot_cmd)\s+PROGBITS\s+([0-9a-f]+)\s([0-9a-f]+)\s([0-9a-f]+)(?:\s|$)";

/// The record that the capture groups of a matching line describe. The
/// groups are those of `SECTION_PATTERN`; groups of any other shape, an
/// unknown name or a number without a 32-bit value are a parse error.
pub open spec fn record_of_groups(groups: Seq<Option<Seq<char>>>) -> Result<
    SectionRecord,
    AisError,
> {
    if groups.len() == 5 && groups[1] is Some && groups[2] is Some && groups[3] is Some
        && groups[4] is Some && section_name_of(groups[1]->0) is Some && hex_text_value(
        groups[2]->0,
    ) is Some && hex_text_value(groups[3]->0) is Some && hex_text_value(groups[4]->0) is Some {
        Ok(
            SectionRecord {
                name: section_name_of(groups[1]->0)->0,
                address: hex_text_value(groups[2]->0)->0,
                file_offset: hex_text_value(groups[3]->0)->0,
                size: hex_text_value(groups[4]->0)->0,
            },
        )
    } else {
        Err(AisError::Parse)
    }
}

/// What a line contributes, given the result of matching it: nothing when it
/// does not match, else the record of its capture groups.
pub open spec fn record_of_match(captures: Option<Seq<Option<Seq<char>>>>) -> Result<
    Option<SectionRecord>,
    AisError,
> {
    match captures {
        None => Ok(None),
        Some(groups) => match record_of_groups(groups) {
            Ok(record) => Ok(Some(record)),
            Err(e) => Err(e),
        },
    }
}

/// What a line of the section table contributes.
pub open spec fn record_of_line(line: Seq<char>) -> Result<Option<SectionRecord>, AisError> {
    record_of_match(regex_captures(SECTION_PATTERN@, line))
}

/// Builds the record that the capture groups of a matching line describe.
pub fn record_from_groups(groups: &Vec<Option<String>>) -> (r: Result<SectionRecord, AisError>)
    ensures
        r == record_of_groups(groups_view(groups@)),
{
    if groups.len() != 5 {
        return Err(AisError::Parse);
    }
    match (&groups[1], &groups[2], &groups[3], &groups[4]) {
        (Some(name), Some(address), Some(file_offset), Some(size)) => {
            match (
                parse_section_name(name.as_str()),
                parse_hex(address.as_str()),
                parse_hex(file_offset.as_str()),
                parse_hex(size.as_str()),
            ) {
                (Some(name), Some(address), Some(file_offset), Some(size)) => Ok(
                    SectionRecord { name, address, file_offset, size },
                ),
                _ => Err(AisError::Parse),
            }
        },
        _ => Err(AisError::Parse),
    }
}

/// Decides what a line contributes, given the result of matching it.
pub fn record_from_match(captures: &Option<Vec<Option<String>>>) -> (r: Result<
    Option<SectionRecord>,
    AisError,
>)
    ensures
        r == record_of_match(captures_view(*captures)),
{
    match captures {
        None => Ok(None),
        Some(groups) => match record_from_groups(groups) {
            Ok(record) => Ok(Some(record)),
            Err(e) => Err(e),
        },
    }
}

/// The character sequences of a sequence of lines.
pub open spec fn lines_view(lines: Seq<String>) -> Seq<Seq<char>> {
    Seq::new(lines.len(), |i: int| lines[i]@)
}

/// The records of a section table, in the order of their lines, or the error
/// of the first line that has one.
pub open spec fn records_of_lines(lines: Seq<Seq<char>>) -> Result<Seq<SectionRecord>, AisError>
    decreases lines.len(),
{
    if lines.len() == 0 {
        Ok(Seq::empty())
    } else {
        match records_of_lines(lines.drop_last()) {
            Err(e) => Err(e),
            Ok(records) => match record_of_line(lines.last()) {
                Err(e) => Err(e),
                Ok(None) => Ok(records),
                Ok(Some(record)) => Ok(records.push(record)),
            },
        }
    }
}

/// The view of the result of reading a table.
pub open spec fn table_view(r: Result<Vec<SectionRecord>, AisError>) -> Result<
    Seq<SectionRecord>,
    AisError,
> {
    match r {
        Ok(records) => Ok(records@),
        Err(e) => Err(e),
    }
}

/// The error of a part of a table that ends before the table does is the
/// error of the table.
proof fn lemma_error_of_prefix(lines: Seq<Seq<char>>, k: int)
    requires
        0 <= k <= lines.len(),
        records_of_lines(lines.take(k)) is Err,
    ensures
        records_of_lines(lines) == records_of_lines(lines.take(k)),
    decreases lines.len() - k,
{
    if k == lines.len() {
        assert(lines.take(k) =~= lines);
    } else {
        assert(lines.take(k + 1).drop_last() =~= lines.take(k));
        lemma_error_of_prefix(lines, k + 1);
    }
}

/// The section pattern, compiled and ready to search lines.
pub struct SectionMatcher {
    matcher: Matcher,
}

impl SectionMatcher {
    /// The pattern that is searched for is the section pattern.
    #[verifier::type_invariant]
    spec fn searches_for_sections(self) -> bool {
        self.matcher@ == SECTION_PATTERN@
    }

    /// The text of the pattern that is searched for.
    pub closed spec fn pattern(&self) -> Seq<char> {
        self.matcher@
    }

    /// Compiles the section pattern. A pattern error, should `regex` refuse
    /// the pattern, is the only failure.
    pub fn new() -> (r: Result<SectionMatcher, AisError>)
        ensures
            r matches Ok(matcher) ==> matcher.pattern() == SECTION_PATTERN@,
            r matches Err(e) ==> e == AisError::Pattern,
    {
        match Matcher::new(SECTION_PATTERN) {
            Ok(matcher) => Ok(SectionMatcher { matcher }),
            Err(e) => Err(e),
        }
    }

    /// Reads one line of a section table. A line that does not match the
    /// section pattern contributes nothing; one that matches yields its
    /// record, or a parse error when a number in it has no 32-bit value.
    pub fn parse_line(&self, line: &str) -> (r: Result<Option<SectionRecord>, AisError>)
        ensures
            r == record_of_line(line@),
    {
        proof {
            use_type_invariant(self);
        }
        let captures = self.matcher.captures(line);
        record_from_match(&captures)
    }

    /// Reads a section table: the records of its matching lines, in the
    /// order of the lines. Stops with a parse error at the first matching
    /// line that has a number without a 32-bit value.
    pub fn parse_table(&self, lines: &[String]) -> (r: Result<Vec<SectionRecord>, AisError>)
        ensures
            table_view(r) == records_of_lines(lines_view(lines@)),
    {
        let ghost all = lines_view(lines@);
        let mut records: Vec<SectionRecord> = Vec::new();
        let mut i: usize = 0;
        while i < lines.len()
            invariant
                i <= lines@.len(),
                all == lines_view(lines@),
                records_of_lines(all.take(i as int)) == Ok::<Seq<SectionRecord>, AisError>(
                    records@,
                ),
            decreases lines@.len() - i,
        {
            assert(all.take(i + 1).drop_last() =~= all.take(i as int));
            match self.parse_line(lines[i].as_str()) {
                Ok(Some(record)) => {
                    records.push(record);
                },
                Ok(None) => {},
                Err(e) => {
                    proof {
                        lemma_error_of_prefix(all, i + 1);
                    }
                    return Err(e);
                },
            }
            i += 1;
        }
        assert(all.take(i as int) =~= all);
        Ok(records)
    }
}

/// Reads one line of a section table, as `SectionMatcher::parse_line` does
/// with a matcher made for this one line. A pattern error, which says
/// nothing about the line, is the only other outcome.
pub fn parse_line(line: &str) -> (r: Result<Option<SectionRecord>, AisError>)
    ensures
        !(r matches Err(AisError::Pattern)) ==> r == record_of_line(line@),
{
    match SectionMatcher::new() {
        Ok(matcher) => matcher.parse_line(line),
        Err(e) => Err(e),
    }
}

/// Reads a section table, as `SectionMatcher::parse_table` does with a
/// matcher made for this one table. A pattern error, which comes before any
/// line is read and says nothing about the table, is the only other outcome.
pub fn parse_table(lines: &[String]) -> (r: Result<Vec<SectionRecord>, AisError>)
    ensures
        !(r matches Err(AisError::Pattern)) ==> table_view(r) == records_of_lines(
            lines_view(lines@),
        ),
{
    match SectionMatcher::new() {
        Ok(matcher) => matcher.parse_table(lines),
        Err(e) => Err(e),
    }
}

/// A line that does not match the section pattern yields no record. A line
/// that matches yields one record, whose name and numbers are those of the
/// capture groups, or a parse error; it never yields nothing.
pub proof fn lemma_record_of_line(line: Seq<char>)
    ensures
        regex_captures(SECTION_PATTERN@, line) is None ==> record_of_line(line) == Ok::<
            Option<SectionRecord>,
            AisError,
        >(None),
        regex_captures(SECTION_PATTERN@, line) is Some ==> record_of_line(line) != Ok::<
            Option<SectionRecord>,
            AisError,
        >(None),
        record_of_line(line) matches Ok(Some(record)) ==> {
            let groups = regex_captures(SECTION_PATTERN@, line)->0;
            &&& regex_captures(SECTION_PATTERN@, line) is Some
            &&& groups.len() == 5
            &&& section_name_of(groups[1]->0) == Some(record.name)
            &&& hex_text_value(groups[2]->0) == Some(record.address)
            &&& hex_text_value(groups[3]->0) == Some(record.file_offset)
            &&& hex_text_value(groups[4]->0) == Some(record.size)
        },
        record_of_line(line) matches Err(e) ==> e == AisError::Parse && regex_captures(
            SECTION_PATTERN@,
            line,
        ) is Some,
{
}

/// The records of a table of one line are what that line yields.
pub proof fn lemma_records_of_one_line(line: Seq<char>)
    ensures
        records_of_lines(seq![line]) == match record_of_line(line) {
            Ok(Some(record)) => Ok::<Seq<SectionRecord>, AisError>(seq![record]),
            Ok(None) => Ok(Seq::empty()),
            Err(e) => Err(e),
        },
{
    reveal_with_fuel(records_of_lines, 2);
}

/// The records of two tables read as one are the records of the first
/// followed by those of the second; the first error, if any, is that of the
/// first table, else that of the second.
pub proof fn lemma_records_of_joined_tables(first: Seq<Seq<char>>, second: Seq<Seq<char>>)
    ensures
        records_of_lines(first + second) == match records_of_lines(first) {
            Err(e) => Err::<Seq<SectionRecord>, AisError>(e),
            Ok(head) => match records_of_lines(second) {
                Err(e) => Err(e),
                Ok(tail) => Ok(head + tail),
            },
        },
    decreases second.len(),
{
    if second.len() > 0 {
        assert((first + second).drop_last() =~= first + second.drop_last());
        lemma_records_of_joined_tables(first, second.drop_last());
    }
}

/// Lines that yield no record change nothing: a table with such a line in
/// it has the records, or the error, of the table without the line.
pub proof fn lemma_line_without_record(
    before: Seq<Seq<char>>,
    line: Seq<char>,
    after: Seq<Seq<char>>,
)
    requires
        record_of_line(line) == Ok::<Option<SectionRecord>, AisError>(None),
    ensures
        records_of_lines(before + seq![line] + after) == records_of_lines(before + after),
{
    lemma_records_of_one_line(line);
    lemma_records_of_joined_tables(before, seq![line]);
    lemma_records_of_joined_tables(before + seq![line], after);
    lemma_records_of_joined_tables(before, after);
    match records_of_lines(before) {
        Ok(head) => {
            assert(head + Seq::<SectionRecord>::empty() =~= head);
        },
        Err(_) => {},
    }
}

} // verus!
