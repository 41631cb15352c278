//! Relocating a module at start-up: which entries of its relocation table
//! are applied, and where its dynamic section lies.
//!
//! The functions here decide on plain values. Reading the tables out of the
//! memory of the module, and writing the relocated addresses into it, is left
//! to the caller.

use vstd::prelude::*;
use crate::ipc::wire::u32_of;

verus! {

/// Magic of the header that `ModuleStart::magic_offset` leads to.
pub const MOD0_MAGIC: u32 = 0x3044_4F4D;

/// The type of a relocation that adds the base address of the module to the
/// addend of the entry.
pub const R_AARCH64_RELATIVE: u32 = 1027;

/// The first eight bytes of a module: a reserved word, and the offset from
/// the start of the module to its header.
#[derive(Clone, Copy, Debug, PartialEq, Eq, Structural)]
pub struct ModuleStart {
    pub reserved: u32,
    pub magic_offset: u32,
}

impl ModuleStart {
    /// The start of a module as its first eight bytes hold it, the two words
    /// least significant byte first.
    pub fn from_bytes(bytes: &[u8; 8]) -> (start: ModuleStart)
        ensures
            start.reserved == u32_of(bytes@[0], bytes@[1], bytes@[2], bytes@[3]),
            start.magic_offset == u32_of(bytes@[4], bytes@[5], bytes@[6], bytes@[7]),
    {
        let reserved: u32 = bytes[0] as u32 + bytes[1] as u32 * 0x100 + bytes[2] as u32 * 0x1_0000
            + bytes[3] as u32 * 0x100_0000;
        let magic_offset: u32 = bytes[4] as u32 + bytes[5] as u32 * 0x100 + bytes[6] as u32
            * 0x1_0000 + bytes[7] as u32 * 0x100_0000;
        ModuleStart { reserved, magic_offset }
    }

    /// The offset from the start of the module to its dynamic section, which
    /// the header of the module places at `dynamic` bytes from itself.
    pub fn dynamic_offset(&self, dynamic: u32) -> (offset: u64)
        ensures
            offset == self.magic_offset + dynamic,
    {
        self.magic_offset as u64 + dynamic as u64
    }
}

/// Tag of the entry that ends a dynamic section.
pub const DT_NULL: i64 = 0;

/// Tag of the entry that holds the offset of the relocation table.
pub const DT_RELA: i64 = 7;

/// Tag of the entry that holds the size in bytes of the relocation table.
pub const DT_RELASZ: i64 = 8;

/// Tag of the entry that holds the size in bytes of one relocation entry.
pub const DT_RELAENT: i64 = 9;

/// Tag of the entry that holds the number of relocation entries.
pub const DT_RELACOUNT: i64 = 0x6FFF_FFF9;

/// One entry of a dynamic section: a tag and the value that goes with it.
#[derive(Clone, Copy, Debug, PartialEq, Eq, Structural)]
pub struct Dyn {
    pub tag: i64,
    pub value: u64,
}

/// Whether entry `i` of a dynamic section is the one that is found for
/// `tag`: it carries the tag, which is not the one that ends a section, and
/// no entry before it carries the tag or ends the section.
pub open spec fn is_found_at(entries: Seq<Dyn>, tag: i64, i: int) -> bool {
    &&& tag != DT_NULL
    &&& 0 <= i < entries.len()
    &&& entries[i].tag == tag
    &&& forall|j: int| 0 <= j < i ==> entries[j].tag != tag && entries[j].tag != DT_NULL
}

/// The value that a dynamic section holds for `tag`: that of the first entry
/// with the tag, if there is one before the section ends. The section ends
/// with its first entry of tag `DT_NULL`, or where `entries` ends. A tag of
/// `DT_NULL` itself is never found.
pub fn find_value(entries: &Vec<Dyn>, tag: i64) -> (found: Option<u64>)
    ensures
        tag == DT_NULL ==> found is None,
        found matches Some(value) ==> exists|i: int|
            is_found_at(entries@, tag, i) && value == (#[trigger] entries@[i]).value,
        found is None ==> forall|i: int| !is_found_at(entries@, tag, i),
{
    if tag == DT_NULL {
        return None;
    }
    let n: usize = entries.len();
    let mut i: usize = 0;
    while i < n
        invariant
            n == entries.len(),
            i <= n,
            tag != DT_NULL,
            forall|j: int| 0 <= j < i ==> entries@[j].tag != tag && entries@[j].tag != DT_NULL,
        decreases n - i,
    {
        let entry: Dyn = entries[i];
        if entry.tag == tag {
            assert(is_found_at(entries@, tag, i as int));
            return Some(entry.value);
        }
        if entry.tag == DT_NULL {
            assert forall|k: int| !is_found_at(entries@, tag, k) by {
                if is_found_at(entries@, tag, k) {
                    if k < i {
                        assert(entries@[k].tag != tag);
                    } else {
                        assert(entries@[i as int].tag == DT_NULL);
                    }
                }
            }
            return None;
        }
        i = i + 1;
    }
    assert forall|k: int| !is_found_at(entries@, tag, k) by {
        if is_found_at(entries@, tag, k) {
            assert(entries@[k].tag != tag);
        }
    }
    None
}

/// At most one entry of a dynamic section is found for a tag.
pub proof fn lemma_found_once(entries: Seq<Dyn>, tag: i64, i: int, j: int)
    requires
        is_found_at(entries, tag, i),
        is_found_at(entries, tag, j),
    ensures
        i == j,
{
    if i < j {
        assert(entries[i].tag != tag);
    } else if j < i {
        assert(entries[j].tag != tag);
    }
}

/// What the dynamic section of a module says of its relocation table: where
/// it lies, its size in bytes, the size of one entry and the number of
/// entries.
#[derive(Clone, Copy, Debug, PartialEq, Eq, Structural)]
pub struct RelaTable {
    pub rela_offset: u64,
    pub rela_size: u64,
    pub rela_entry_size: u64,
    pub rela_count: u64,
}

impl RelaTable {
    /// Whether the size of the table is that of its entries together.
    pub open spec fn sizes_agree(self) -> bool {
        self.rela_size == self.rela_entry_size * self.rela_count
    }

    /// What the dynamic section `entries` says of the relocation table, if
    /// it holds a value for each of the four tags that describe it.
    pub fn from_dyn(entries: &Vec<Dyn>) -> (table: Option<RelaTable>)
        ensures
            table matches Some(t) ==> {
                &&& exists|i: int|
                    is_found_at(entries@, DT_RELA, i) && t.rela_offset == (
                    #[trigger] entries@[i]).value
                &&& exists|i: int|
                    is_found_at(entries@, DT_RELASZ, i) && t.rela_size == (
                    #[trigger] entries@[i]).value
                &&& exists|i: int|
                    is_found_at(entries@, DT_RELAENT, i) && t.rela_entry_size == (
                    #[trigger] entries@[i]).value
                &&& exists|i: int|
                    is_found_at(entries@, DT_RELACOUNT, i) && t.rela_count == (
                    #[trigger] entries@[i]).value
            },
            table is None ==> {
                ||| forall|i: int| !is_found_at(entries@, DT_RELA, i)
                ||| forall|i: int| !is_found_at(entries@, DT_RELASZ, i)
                ||| forall|i: int| !is_found_at(entries@, DT_RELAENT, i)
                ||| forall|i: int| !is_found_at(entries@, DT_RELACOUNT, i)
            },
    {
        let rela_offset: u64 = match find_value(entries, DT_RELA) {
            Some(value) => value,
            None => {
                return None;
            },
        };
        let rela_size: u64 = match find_value(entries, DT_RELASZ) {
            Some(value) => value,
            None => {
                return None;
            },
        };
        let rela_entry_size: u64 = match find_value(entries, DT_RELAENT) {
            Some(value) => value,
            None => {
                return None;
            },
        };
        let rela_count: u64 = match find_value(entries, DT_RELACOUNT) {
            Some(value) => value,
            None => {
                return None;
            },
        };
        Some(RelaTable { rela_offset, rela_size, rela_entry_size, rela_count })
    }
}

/// One entry of a relocation table.
#[derive(Clone, Copy, Debug, PartialEq, Eq, Structural)]
pub struct Rela {
    /// Offset from the start of the module to the place that is relocated.
    pub offset: u64,
    pub relocation_type: u32,
    pub symbol: u32,
    /// Offset from the start of the module to what the place is to point at.
    pub addend: i64,
}

/// An address to write: at `offset` bytes from the start of the module, the
/// address of what lies `addend` bytes from the start of the module.
#[derive(Clone, Copy, Debug, PartialEq, Eq, Structural)]
pub struct Relocation {
    pub offset: u64,
    pub addend: i64,
}

impl Rela {
    /// Whether the entry is applied: it is relative to the base address and
    /// names no symbol.
    pub open spec fn is_applied(self) -> bool {
        self.relocation_type == R_AARCH64_RELATIVE && self.symbol == 0
    }

    /// What the entry asks to write, if it is applied.
    pub open spec fn relocation(self) -> Relocation {
        Relocation { offset: self.offset, addend: self.addend }
    }

    /// What the entry asks to write: nothing unless it is relative to the
    /// base address and names no symbol.
    pub fn get_relocation(&self) -> (found: Option<Relocation>)
        ensures
            found == if self.is_applied() {
                Some(self.relocation())
            } else {
                None
            },
    {
        if self.relocation_type == R_AARCH64_RELATIVE && self.symbol == 0 {
            Some(Relocation { offset: self.offset, addend: self.addend })
        } else {
            None
        }
    }
}

/// Why a module cannot be relocated.
#[derive(Clone, Copy, Debug, PartialEq, Eq, Structural)]
pub enum RelocationError {
    /// The size of the relocation table is not that of its entries together.
    RelaSizeMismatch,
}

/// The relocations that a table asks for: those of its applied entries, in
/// the order of the table.
pub open spec fn relocations_of(relas: Seq<Rela>) -> Seq<Relocation> {
    relas.filter(|r: Rela| r.is_applied()).map_values(|r: Rela| r.relocation())
}

/// Checks that the size of the table is that of its entries together.
pub fn check_rela_table(table: &RelaTable) -> (res: Result<(), RelocationError>)
    ensures
        res is Ok <==> table.sizes_agree(),
        res is Err ==> res == Err::<(), RelocationError>(RelocationError::RelaSizeMismatch),
{
    match table.rela_entry_size.checked_mul(table.rela_count) {
        Some(size) => {
            if size == table.rela_size {
                Ok(())
            } else {
                Err(RelocationError::RelaSizeMismatch)
            }
        },
        None => Err(RelocationError::RelaSizeMismatch),
    }
}

/// The relocations to apply to a module whose dynamic section describes the
/// table `table` and whose table holds the entries `relas`. Fails if the size
/// of the table is not that of its entries together; otherwise gives, in the
/// order of the table, what each applied entry asks to write.
pub fn relocate_with_dyn(table: &RelaTable, relas: &Vec<Rela>) -> (res: Result<
    Vec<Relocation>,
    RelocationError,
>)
    ensures
        !table.sizes_agree() ==> res == Err::<Vec<Relocation>, RelocationError>(
            RelocationError::RelaSizeMismatch,
        ),
        table.sizes_agree() ==> res is Ok && res->Ok_0@ == relocations_of(relas@),
{
    match check_rela_table(table) {
        Err(e) => {
            return Err(e);
        },
        Ok(()) => {},
    }
    let n: usize = relas.len();
    let mut out: Vec<Relocation> = Vec::new();
    let mut i: usize = 0;
    proof {
        assert(relas@.take(0) =~= Seq::<Rela>::empty());
        lemma_relocations_of_empty();
    }
    while i < n
        invariant
            n == relas.len(),
            i <= n,
            out@ == relocations_of(relas@.take(i as int)),
        decreases n - i,
    {
        let rela: Rela = relas[i];
        proof {
            lemma_relocations_of_push(relas@.take(i as int), rela);
            assert(relas@.take(i as int).push(rela) =~= relas@.take(i + 1));
        }
        match rela.get_relocation() {
            Some(relocation) => {
                out.push(relocation);
            },
            None => {},
        }
        i = i + 1;
    }
    assert(relas@.take(n as int) =~= relas@);
    Ok(out)
}

/// An empty table asks for nothing.
pub proof fn lemma_relocations_of_empty()
    ensures
        relocations_of(Seq::<Rela>::empty()) == Seq::<Relocation>::empty(),
{
    let applied = |r: Rela| r.is_applied();
    assert(Seq::<Rela>::empty().filter(applied) =~= Seq::<Rela>::empty()) by {
        reveal(Seq::filter);
    }
    assert(relocations_of(Seq::<Rela>::empty()) =~= Seq::<Relocation>::empty());
}

/// One more entry at the end of a table adds its relocation at the end if it
/// is applied, and nothing if it is not.
pub proof fn lemma_relocations_of_push(relas: Seq<Rela>, rela: Rela)
    ensures
        relocations_of(relas.push(rela)) == if rela.is_applied() {
            relocations_of(relas).push(rela.relocation())
        } else {
            relocations_of(relas)
        },
{
    let applied = |r: Rela| r.is_applied();
    let value = |r: Rela| r.relocation();
    assert(relas.push(rela).filter(applied) == if rela.is_applied() {
        relas.filter(applied).push(rela)
    } else {
        relas.filter(applied)
    }) by {
        reveal(Seq::filter);
        assert(relas.push(rela).drop_last() =~= relas);
    }
    if rela.is_applied() {
        assert(relas.filter(applied).push(rela).map_values(value) =~= relas.filter(
            applied,
        ).map_values(value).push(value(rela)));
    }
}

/// Every relocation that a table asks for comes from an applied entry of the
/// table.
pub proof fn lemma_relocations_from_table(relas: Seq<Rela>, k: int)
    requires
        0 <= k < relocations_of(relas).len(),
    ensures
        exists|i: int|
            0 <= i < relas.len() && (#[trigger] relas[i]).is_applied() && relas[i].relocation()
                == relocations_of(relas)[k],
{
    let applied = |r: Rela| r.is_applied();
    let kept = relas.filter(applied);
    relas.lemma_filter_contains_rev(applied, kept[k]);
    let i = choose|i: int| 0 <= i < relas.len() && relas[i] == kept[k];
    assert(relas[i].is_applied());
}

} // verus!
