//! One level of a RISC-V Sv39-style page table: the bit-level encoding of a
//! page-table entry (validity, permissions, leaf/branch shape) and a
//! fixed-size table of 512 such entries.
//!
//! The table-walk algorithm, frame allocation and TLB handling live elsewhere;
//! this crate pins down the encoding contract those components rely on.

use vstd::prelude::*;

verus! {

/// Bit masks over the low status/permission byte of a page-table entry.
///
/// The positions are hardware-defined (they match the architecture's PTE
/// layout), so each variant's pattern is part of the contract, not a free
/// choice. The combined variants are unions of the single-bit ones, provided
/// only to shorten call sites.
#[derive(Copy, Clone)]
pub enum EntryBits {
    /// No bits set: the pattern of a cleared (invalid) entry.
    Empty,
    /// Bit 0: the entry is usable.
    Valid,
    /// Bit 1: readable.
    Read,
    /// Bit 2: writable.
    Write,
    /// Bit 3: executable.
    Execute,
    /// Bit 4: accessible from unprivileged mode.
    User,
    /// Bit 5: mapping valid across address spaces.
    Global,
    /// Bit 6: hardware-settable "accessed" bit.
    Access,
    /// Bit 7: hardware-settable "written" bit.
    Dirty,
    /// Read | Write.
    ReadWrite,
    /// Read | Execute.
    ReadExecute,
    /// Read | Write | Execute.
    ReadWriteExecute,
    /// Read | Write | User.
    UserReadWrite,
    /// Read | Execute | User.
    UserReadExecute,
    /// Read | Write | Execute | User.
    UserReadWriteExecute,
}

impl EntryBits {
    /// The bit pattern of this mask.
    pub open spec fn spec_val(self) -> usize {
        match self {
            EntryBits::Empty => 0x00,
            EntryBits::Valid => 0x01,
            EntryBits::Read => 0x02,
            EntryBits::Write => 0x04,
            EntryBits::Execute => 0x08,
            EntryBits::User => 0x10,
            EntryBits::Global => 0x20,
            EntryBits::Access => 0x40,
            EntryBits::Dirty => 0x80,
            EntryBits::ReadWrite => 0x06,
            EntryBits::ReadWriteExecute => 0x0e,
            EntryBits::ReadExecute => 0x0a,
            EntryBits::UserReadWrite => 0x16,
            EntryBits::UserReadExecute => 0x1a,
            EntryBits::UserReadWriteExecute => 0x1e,
        }
    }

    /// The bit pattern of this mask, for composing entries with `|` and
    /// testing them with `&`.
    pub fn val(self) -> (r: usize)
        ensures
            r == self.spec_val(),
    {
        match self {
            EntryBits::Empty => 0x00,
            EntryBits::Valid => 0x01,
            EntryBits::Read => 0x02,
            EntryBits::Write => 0x04,
            EntryBits::Execute => 0x08,
            EntryBits::User => 0x10,
            EntryBits::Global => 0x20,
            EntryBits::Access => 0x40,
            EntryBits::Dirty => 0x80,
            EntryBits::ReadWrite => 0x06,
            EntryBits::ReadWriteExecute => 0x0e,
            EntryBits::ReadExecute => 0x0a,
            EntryBits::UserReadWrite => 0x16,
            EntryBits::UserReadExecute => 0x1a,
            EntryBits::UserReadWriteExecute => 0x1e,
        }
    }
}

/// Every combined mask is exactly the bitwise union of its named components.
pub proof fn lemma_combined_masks_are_unions()
    ensures
        EntryBits::ReadWrite.spec_val() == EntryBits::Read.spec_val()
            | EntryBits::Write.spec_val(),
        EntryBits::ReadExecute.spec_val() == EntryBits::Read.spec_val()
            | EntryBits::Execute.spec_val(),
        EntryBits::ReadWriteExecute.spec_val() == EntryBits::Read.spec_val()
            | EntryBits::Write.spec_val() | EntryBits::Execute.spec_val(),
        EntryBits::UserReadWrite.spec_val() == EntryBits::Read.spec_val()
            | EntryBits::Write.spec_val() | EntryBits::User.spec_val(),
        EntryBits::UserReadExecute.spec_val() == EntryBits::Read.spec_val()
            | EntryBits::Execute.spec_val() | EntryBits::User.spec_val(),
        EntryBits::UserReadWriteExecute.spec_val() == EntryBits::Read.spec_val()
            | EntryBits::Write.spec_val() | EntryBits::Execute.spec_val()
            | EntryBits::User.spec_val(),
{
    assert(0x06usize == 0x02usize | 0x04usize) by (bit_vector);
    assert(0x0ausize == 0x02usize | 0x08usize) by (bit_vector);
    assert(0x0eusize == 0x02usize | 0x04usize | 0x08usize) by (bit_vector);
    assert(0x16usize == 0x02usize | 0x04usize | 0x10usize) by (bit_vector);
    assert(0x1ausize == 0x02usize | 0x08usize | 0x10usize) by (bit_vector);
    assert(0x1eusize == 0x02usize | 0x04usize | 0x08usize | 0x10usize) by (bit_vector);
}

/// Whether a raw entry word has the valid bit (bit 0) set.
pub open spec fn word_is_valid(w: usize) -> bool {
    w & EntryBits::Valid.spec_val() != 0
}

/// Whether a raw entry word has leaf shape: at least one of the R/W/X bits
/// (bits 1-3) set. Validity is deliberately not consulted.
pub open spec fn word_is_leaf(w: usize) -> bool {
    w & EntryBits::ReadWriteExecute.spec_val() != 0
}

/// One page-table entry: a single machine word. The low byte holds the
/// status/permission bits of [`EntryBits`]; the high bits carry the physical
/// page number, which only the (external) table walker interprets.
#[derive(Copy, Clone)]
pub struct PageTableEntry {
    pub entry: usize,
}

impl View for PageTableEntry {
    type V = usize;

    open spec fn view(&self) -> usize {
        self.entry
    }
}

/// The entry that `set_entry` leaves behind: the whole word is overwritten,
/// nothing of the prior value survives.
pub open spec fn spec_set_entry(e: PageTableEntry, word: usize) -> PageTableEntry {
    PageTableEntry { entry: word }
}

impl PageTableEntry {
    /// True iff the valid bit (bit 0) is set.
    pub fn is_valid(&self) -> (r: bool)
        ensures
            r == word_is_valid(self@),
    {
        self.get_entry() & EntryBits::Valid.val() != 0
    }

    /// The negation of `is_valid`: a cleared entry is a hole.
    pub fn is_invalid(&self) -> (r: bool)
        ensures
            r == !word_is_valid(self@),
    {
        !self.is_valid()
    }

    /// True iff any of the R/W/X bits (bits 1-3) is set: the entry has the
    /// shape of a terminal mapping. The valid bit is not consulted; a caller
    /// must gate on `is_valid` before trusting the answer.
    pub fn is_leaf(&self) -> (r: bool)
        ensures
            r == word_is_leaf(self@),
    {
        self.get_entry() & 0xe != 0
    }

    /// The negation of `is_leaf`: the entry has the shape of a pointer to the
    /// next table level. An invalid all-zero entry also reports branch shape;
    /// the predicate answers only what the R/W/X bits encode, so a caller
    /// must gate on `is_valid` first.
    pub fn is_branch(&self) -> (r: bool)
        ensures
            r == !word_is_leaf(self@),
    {
        !self.is_leaf()
    }

    /// Overwrite the whole raw word with `entry`, unconditionally: no
    /// validation, no preservation of prior bits.
    pub fn set_entry(&mut self, entry: usize)
        ensures
            *final(self) == spec_set_entry(*old(self), entry),
    {
        self.entry = entry;
    }

    /// The raw word, unchanged.
    pub fn get_entry(&self) -> (r: usize)
        ensures
            r == self@,
    {
        self.entry
    }
}

/// Round trip: the word installed by `set_entry` is what `get_entry` then
/// returns, exactly and for every word — no normalization happens on either
/// side.
pub proof fn lemma_set_get_round_trip(e: PageTableEntry, word: usize)
    ensures
        spec_set_entry(e, word)@ == word,
{
}

/// The all-zero word is invalid and has branch shape: neither the valid bit
/// nor any R/W/X bit is set. (A walker must treat such an entry as absent,
/// not follow it as a branch.)
pub proof fn lemma_zero_word_invalid_branch()
    ensures
        !word_is_valid(0),
        !word_is_leaf(0),
{
    assert(0usize & 0x01usize == 0usize) by (bit_vector);
    assert(0usize & 0x0eusize == 0usize) by (bit_vector);
}

/// One level of the paging radix tree: exactly 512 entries, indexable
/// 0..511. The tree linkage across levels is established by the external
/// mapper; this type is only the structural description of one level.
pub struct PageTable {
    pub entries: [PageTableEntry; 512],
}

impl View for PageTable {
    type V = Seq<usize>;

    open spec fn view(&self) -> Seq<usize> {
        Seq::new(512, |i: int| self.entries@[i]@)
    }
}

impl PageTable {
    /// The number of entries in one table level: an architectural constant
    /// (a 9-bit index field per level).
    pub fn len() -> (r: usize)
        ensures
            r == 512,
    {
        512
    }

    /// A freshly zero-initialized table: every entry is the all-zero word,
    /// hence invalid.
    pub fn new() -> (r: PageTable)
        ensures
            r@.len() == 512,
            forall|i: int| 0 <= i < 512 ==> r@[i] == 0,
            forall|i: int| 0 <= i < 512 ==> !word_is_valid(r@[i]),
    {
        proof {
            lemma_zero_word_invalid_branch();
        }
        PageTable { entries: [PageTableEntry { entry: 0 }; 512] }
    }

    /// The entry at slot `index`. An out-of-range index is a caller error:
    /// the index domain is the architectural constant 512.
    pub fn entry_at(&self, index: usize) -> (r: PageTableEntry)
        requires
            index < 512,
        ensures
            r@ == self@[index as int],
    {
        self.entries[index]
    }

    /// Overwrite the entry at slot `index`; all other slots are untouched.
    /// An out-of-range index is a caller error.
    pub fn set_entry_at(&mut self, index: usize, entry: PageTableEntry)
        requires
            index < 512,
        ensures
            final(self)@ == old(self)@.update(index as int, entry@),
    {
        self.entries[index] = entry;
        proof {
            assert(self@ =~= old(self)@.update(index as int, entry@));
        }
    }
}

} // verus!
