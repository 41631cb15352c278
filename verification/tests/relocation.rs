use nx::dynamic::{
    check_rela_table, find_value, relocate_with_dyn, Dyn, ModuleStart, Rela, RelaTable,
    Relocation, RelocationError, DT_NULL, DT_RELA, DT_RELACOUNT, DT_RELAENT, DT_RELASZ,
    MOD0_MAGIC, R_AARCH64_RELATIVE,
};

fn table(size: u64, entry: u64, count: u64) -> RelaTable {
    RelaTable { rela_offset: 0x1000, rela_size: size, rela_entry_size: entry, rela_count: count }
}

#[test]
fn module_start_from_bytes() {
    let start = ModuleStart::from_bytes(&[0x14, 0, 0, 0x14, 0x78, 0x56, 0x34, 0x12]);
    assert_eq!(start, ModuleStart { reserved: 0x1400_0014, magic_offset: 0x1234_5678 });
    assert_eq!(start.dynamic_offset(0x100), 0x1234_5778);
    let start = ModuleStart { reserved: 0, magic_offset: u32::MAX };
    assert_eq!(start.dynamic_offset(u32::MAX), 0x1_FFFF_FFFE);
    assert_eq!(MOD0_MAGIC.to_le_bytes(), *b"MOD0");
}

#[test]
fn rela_table_sizes() {
    assert_eq!(check_rela_table(&table(72, 24, 3)), Ok(()));
    assert_eq!(check_rela_table(&table(0, 24, 0)), Ok(()));
    assert_eq!(check_rela_table(&table(71, 24, 3)), Err(RelocationError::RelaSizeMismatch));
    assert_eq!(check_rela_table(&table(24, 24, 0)), Err(RelocationError::RelaSizeMismatch));
    // a product that does not fit 64 bits is no size
    assert_eq!(
        check_rela_table(&table(0, 1 << 32, 1 << 32)),
        Err(RelocationError::RelaSizeMismatch)
    );
}

#[test]
fn only_relative_entries_without_symbol_are_applied() {
    let relas = vec![
        Rela { offset: 0x10, relocation_type: R_AARCH64_RELATIVE, symbol: 0, addend: 0x100 },
        Rela { offset: 0x18, relocation_type: 257, symbol: 0, addend: 0x200 },
        Rela { offset: 0x20, relocation_type: R_AARCH64_RELATIVE, symbol: 1, addend: 0x300 },
        Rela { offset: 0x28, relocation_type: R_AARCH64_RELATIVE, symbol: 0, addend: -8 },
    ];
    assert_eq!(relas[0].get_relocation(), Some(Relocation { offset: 0x10, addend: 0x100 }));
    assert_eq!(relas[1].get_relocation(), None);
    assert_eq!(relas[2].get_relocation(), None);
    assert_eq!(
        relocate_with_dyn(&table(96, 24, 4), &relas),
        Ok(vec![
            Relocation { offset: 0x10, addend: 0x100 },
            Relocation { offset: 0x28, addend: -8 },
        ])
    );
    assert_eq!(
        relocate_with_dyn(&table(95, 24, 4), &relas),
        Err(RelocationError::RelaSizeMismatch)
    );
    assert_eq!(relocate_with_dyn(&table(0, 24, 0), &Vec::new()), Ok(Vec::new()));
    assert_eq!(R_AARCH64_RELATIVE, 0x403);
}

#[test]
fn first_entry_with_the_tag_is_found() {
    let entries = vec![
        Dyn { tag: 5, value: 50 },
        Dyn { tag: DT_RELA, value: 0x2000 },
        Dyn { tag: 5, value: 51 },
        Dyn { tag: DT_NULL, value: 0 },
        Dyn { tag: 6, value: 60 },
    ];
    assert_eq!(find_value(&entries, 5), Some(50));
    assert_eq!(find_value(&entries, DT_RELA), Some(0x2000));
    // behind the end of the section nothing is found
    assert_eq!(find_value(&entries, 6), None);
    assert_eq!(find_value(&entries, 9), None);
    // the entry that ends the section is not found itself
    assert_eq!(find_value(&entries, DT_NULL), None);
    assert_eq!(find_value(&Vec::new(), 5), None);
    // a section without its last entry ends where the entries end
    assert_eq!(find_value(&vec![Dyn { tag: 6, value: 60 }], 6), Some(60));
}

#[test]
fn rela_table_from_the_dynamic_section() {
    let mut entries = vec![
        Dyn { tag: DT_RELACOUNT, value: 3 },
        Dyn { tag: DT_RELAENT, value: 24 },
        Dyn { tag: DT_RELA, value: 0x2000 },
        Dyn { tag: DT_RELASZ, value: 72 },
        Dyn { tag: DT_NULL, value: 0 },
    ];
    let found = RelaTable::from_dyn(&entries);
    assert_eq!(
        found,
        Some(RelaTable { rela_offset: 0x2000, rela_size: 72, rela_entry_size: 24, rela_count: 3 })
    );
    assert_eq!(check_rela_table(&found.unwrap()), Ok(()));
    assert_eq!(DT_RELACOUNT, 0x6FFF_FFF9);
    assert_eq!((DT_RELA, DT_RELASZ, DT_RELAENT), (7, 8, 9));
    for missing in 0..4 {
        let kept = entries.remove(missing);
        assert_eq!(RelaTable::from_dyn(&entries), None);
        entries.insert(missing, kept);
    }
}
