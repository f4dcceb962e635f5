//! Section records: what the image needs to know about one loadable section.

use vstd::prelude::*;
use crate::padding::MAX_SECTION_SIZE;

verus! {

/// The sections that go into an image.
#[derive(Clone, Copy, Debug, PartialEq, Eq, Structural)]
pub enum SectionName {
    /// `.text`, the code; its address is where execution starts.
    Text,
    /// `.rodata`, constants.
    Rodata,
    /// `.data`, initialised variables.
    Data,
    /// `.u_boot_cmd`, the command table.
    UBootCmd,
}

impl SectionName {
    /// The name as the section table spells it, without the leading dot.
    pub open spec fn text(self) -> Seq<char> {
        match self {
            SectionName::Text => "text"@,
            SectionName::Rodata => "rodata"@,
            SectionName::Data => "data"@,
            SectionName::UBootCmd => "u_boot_cmd"@,
        }
    }

    /// The name as the section table spells it, without the leading dot.
    pub fn as_str(&self) -> (s: &'static str)
        ensures
            s@ == self.text(),
    {
        match self {
            SectionName::Text => "text",
            SectionName::Rodata => "rodata",
            SectionName::Data => "data",
            SectionName::UBootCmd => "u_boot_cmd",
        }
    }
}

/// The section that a table spells `s`, if it is one that goes into an image.
pub open spec fn section_name_of(s: Seq<char>) -> Option<SectionName> {
    if s == SectionName::Text.text() {
        Some(SectionName::Text)
    } else if s == SectionName::Rodata.text() {
        Some(SectionName::Rodata)
    } else if s == SectionName::Data.text() {
        Some(SectionName::Data)
    } else if s == SectionName::UBootCmd.text() {
        Some(SectionName::UBootCmd)
    } else {
        None
    }
}

/// Every section is recognised by its own spelling, so no two sections are
/// spelled alike.
pub proof fn lemma_section_name_round_trip(name: SectionName)
    ensures
        section_name_of(name.text()) == Some(name),
{
    reveal_strlit("text");
    reveal_strlit("rodata");
    reveal_strlit("data");
    reveal_strlit("u_boot_cmd");
    assert("text"@.len() == 4 && "data"@.len() == 4);
    assert("rodata"@.len() == 6 && "u_boot_cmd"@.len() == 10);
    assert("text"@[0] == 't' && "data"@[0] == 'd');
}

/// Whether two strings hold the same characters.
fn same_text(a: &str, b: &str) -> (same: bool)
    ensures
        same == (a@ == b@),
{
    let n = a.unicode_len();
    if b.unicode_len() != n {
        return false;
    }
    let mut i: usize = 0;
    while i < n
        invariant
            i <= n,
            n == a@.len(),
            n == b@.len(),
            forall|k: int| 0 <= k < i ==> a@[k] == b@[k],
        decreases n - i,
    {
        if a.get_char(i) != b.get_char(i) {
            return false;
        }
        i += 1;
    }
    assert(a@ =~= b@);
    true
}

/// Recognises the name of a section that goes into an image.
pub fn parse_section_name(s: &str) -> (name: Option<SectionName>)
    ensures
        name == section_name_of(s@),
{
    if same_text(s, SectionName::Text.as_str()) {
        Some(SectionName::Text)
    } else if same_text(s, SectionName::Rodata.as_str()) {
        Some(SectionName::Rodata)
    } else if same_text(s, SectionName::Data.as_str()) {
        Some(SectionName::Data)
    } else if same_text(s, SectionName::UBootCmd.as_str()) {
        Some(SectionName::UBootCmd)
    } else {
        None
    }
}

/// One loadable section of the input binary.
#[derive(Clone, Copy, Debug, PartialEq, Eq, Structural)]
pub struct SectionRecord {
    /// Which section this is.
    pub name: SectionName,
    /// The address at which the bootloader places the section.
    pub address: u32,
    /// Where the section's bytes start in the input binary.
    pub file_offset: u32,
    /// The number of bytes in the section, before padding.
    pub size: u32,
}

impl SectionRecord {
    /// Whether the padded size of the section fits in a command word.
    pub open spec fn encodable(self) -> bool {
        self.size <= MAX_SECTION_SIZE
    }

    /// Whether the section lies within a binary of `binary_len` bytes.
    pub open spec fn in_bounds(self, binary_len: nat) -> bool {
        self.file_offset + self.size <= binary_len
    }

    /// Whether the section can be dealt with: it reaches beyond a binary of
    /// `binary_len` bytes, which is an error of its own, or its padded size
    /// fits in a command word.
    pub open spec fn fits(self, binary_len: nat) -> bool {
        self.in_bounds(binary_len) ==> self.encodable()
    }

    /// Tests whether the padded size of the section fits in a command word.
    pub fn is_encodable(&self) -> (fits: bool)
        ensures
            fits == self.encodable(),
    {
        self.size <= MAX_SECTION_SIZE
    }

    /// Tests whether the section lies within a binary of `binary_len` bytes.
    pub fn is_in_bounds(&self, binary_len: usize) -> (inside: bool)
        ensures
            inside == self.in_bounds(binary_len as nat),
    {
        self.file_offset as u64 + self.size as u64 <= binary_len as u64
    }
}

/// Whether every record lies within a binary of `binary_len` bytes.
pub open spec fn all_in_bounds(records: Seq<SectionRecord>, binary_len: nat) -> bool {
    forall|i: int| 0 <= i < records.len() ==> (#[trigger] records[i]).in_bounds(binary_len)
}

/// Whether every record can be dealt with: none lies within a binary of
/// `binary_len` bytes and has a padded size that fits no command word.
pub open spec fn all_fit(records: Seq<SectionRecord>, binary_len: nat) -> bool {
    forall|i: int| 0 <= i < records.len() ==> (#[trigger] records[i]).fits(binary_len)
}

/// Tests whether every record can be dealt with in a binary of `binary_len`
/// bytes.
pub fn records_fit(records: &[SectionRecord], binary_len: usize) -> (fit: bool)
    ensures
        fit == all_fit(records@, binary_len as nat),
{
    let mut i: usize = 0;
    while i < records.len()
        invariant
            i <= records@.len(),
            all_fit(records@.take(i as int), binary_len as nat),
        decreases records@.len() - i,
    {
        if records[i].is_in_bounds(binary_len) && !records[i].is_encodable() {
            return false;
        }
        i += 1;
    }
    assert(records@.take(i as int) =~= records@);
    true
}

/// The address at which execution starts: that of the last `.text` record,
/// or zero when there is none.
pub open spec fn entry_address_of(records: Seq<SectionRecord>) -> u32
    decreases records.len(),
{
    if records.len() == 0 {
        0
    } else if records.last().name == SectionName::Text {
        records.last().address
    } else {
        entry_address_of(records.drop_last())
    }
}

/// Finds the address at which execution starts.
pub fn entry_address(records: &[SectionRecord]) -> (entry: u32)
    ensures
        entry == entry_address_of(records@),
{
    let mut entry: u32 = 0;
    let mut i: usize = 0;
    while i < records.len()
        invariant
            i <= records@.len(),
            entry == entry_address_of(records@.take(i as int)),
        decreases records@.len() - i,
    {
        assert(records@.take(i + 1).drop_last() =~= records@.take(i as int));
        if records[i].name == SectionName::Text {
            entry = records[i].address;
        }
        i += 1;
    }
    assert(records@.take(i as int) =~= records@);
    entry
}

/// Whether record `i` is a `.text` record after which no other follows.
pub open spec fn is_last_text(records: Seq<SectionRecord>, i: int) -> bool {
    &&& 0 <= i < records.len()
    &&& records[i].name == SectionName::Text
    &&& forall|j: int| i < j < records.len() ==> (#[trigger] records[j]).name != SectionName::Text
}

/// Whether the records hold a `.text` record.
pub open spec fn has_text(records: Seq<SectionRecord>) -> bool {
    exists|i: int| 0 <= i < records.len() && (#[trigger] records[i]).name == SectionName::Text
}

/// The entry address is the address of the last `.text` record, and zero
/// when the records hold no `.text` record.
pub proof fn lemma_entry_address(records: Seq<SectionRecord>)
    ensures
        !has_text(records) ==> entry_address_of(records) == 0,
        forall|i: int| #[trigger]
            is_last_text(records, i) ==> entry_address_of(records) == records[i].address,
        has_text(records) ==> exists|i: int| #[trigger] is_last_text(records, i),
    decreases records.len(),
{
    if records.len() > 0 {
        let front = records.drop_last();
        let last = records.len() - 1;
        lemma_entry_address(front);
        if records[last].name == SectionName::Text {
            assert(is_last_text(records, last));
        } else {
            assert forall|i: int| #[trigger] is_last_text(records, i) implies is_last_text(
                front,
                i,
            ) by {
                assert(forall|j: int| i < j < front.len() ==> front[j] == records[j]);
            }
            if has_text(records) {
                let k = choose|k: int|
                    0 <= k < records.len() && (#[trigger] records[k]).name == SectionName::Text;
                assert(front[k].name == SectionName::Text);
                let i = choose|i: int| #[trigger] is_last_text(front, i);
                assert(is_last_text(records, i)) by {
                    assert(forall|j: int| i < j < front.len() ==> front[j] == records[j]);
                }
            } else {
                assert(forall|i: int| 0 <= i < front.len() ==> front[i] == records[i]);
            }
        }
    }
}

} // verus!
