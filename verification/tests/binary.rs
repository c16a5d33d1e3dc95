use rebg::arch::{Arch, ArchError, Architecture};
use rebg::binary::{Binary, BinaryError, ElfImage, ElfSymbol, ProgramHeader};
use rebg::syms::{ModuleError, ProgramOffset, Symbol, SymbolError, SymbolTable};

struct Section {
    name: &'static str,
    kind: u32,
    data: Vec<u8>,
    link: u32,
    info: u32,
    entsize: u64,
}

fn symbol(name_offset: u32, value: u64, size: u64) -> Vec<u8> {
    let mut s = Vec::new();
    s.extend_from_slice(&name_offset.to_le_bytes());
    s.push(0x12);
    s.push(0);
    s.extend_from_slice(&1u16.to_le_bytes());
    s.extend_from_slice(&value.to_le_bytes());
    s.extend_from_slice(&size.to_le_bytes());
    s
}

/// A small ELF file: two program headers, a symbol table and a build id.
fn elf(machine: u16, build_id: &[u8], paddr_shift: u64) -> Vec<u8> {
    let strtab = b"\0main\0$x\0helper\0\0".to_vec();
    let mut symtab = vec![0u8; 24];
    symtab.extend(symbol(1, 0x1010, 0x20)); // main
    symtab.extend(symbol(6, 0x1010, 0)); // $x
    symtab.extend(symbol(9, 0x1100, 0x8)); // helper
    symtab.extend(symbol(0, 0x1200, 0x8)); // unnamed
    symtab.extend(symbol(9, 0x9000, 0x8)); // outside every segment
    let mut note = Vec::new();
    note.extend_from_slice(&4u32.to_le_bytes());
    note.extend_from_slice(&(build_id.len() as u32).to_le_bytes());
    note.extend_from_slice(&3u32.to_le_bytes());
    note.extend_from_slice(b"GNU\0");
    note.extend_from_slice(build_id);

    let mut sections = vec![
        Section { name: "", kind: 0, data: vec![], link: 0, info: 0, entsize: 0 },
        Section { name: ".strtab", kind: 3, data: strtab, link: 0, info: 0, entsize: 0 },
        Section { name: ".symtab", kind: 2, data: symtab, link: 1, info: 1, entsize: 24 },
        Section { name: ".note.gnu.build-id", kind: 7, data: note, link: 0, info: 0, entsize: 0 },
    ];
    let mut shstrtab = vec![0u8];
    let mut name_offsets = vec![0u32];
    for s in sections.iter().skip(1) {
        name_offsets.push(shstrtab.len() as u32);
        shstrtab.extend_from_slice(s.name.as_bytes());
        shstrtab.push(0);
    }
    name_offsets.push(shstrtab.len() as u32);
    shstrtab.extend_from_slice(b".shstrtab\0");
    sections.push(Section { name: ".shstrtab", kind: 3, data: shstrtab, link: 0, info: 0, entsize: 0 });

    let phnum = 2u16;
    let mut out = vec![0u8; 64 + 56 * phnum as usize];
    let mut offsets = Vec::new();
    for s in &sections {
        while out.len() % 8 != 0 {
            out.push(0);
        }
        offsets.push(out.len() as u64);
        out.extend_from_slice(&s.data);
    }
    while out.len() % 8 != 0 {
        out.push(0);
    }
    let shoff = out.len() as u64;
    for (i, s) in sections.iter().enumerate() {
        out.extend_from_slice(&name_offsets[i].to_le_bytes());
        out.extend_from_slice(&s.kind.to_le_bytes());
        out.extend_from_slice(&0u64.to_le_bytes()); // flags
        out.extend_from_slice(&0u64.to_le_bytes()); // addr
        out.extend_from_slice(&(if s.kind == 0 { 0 } else { offsets[i] }).to_le_bytes());
        out.extend_from_slice(&(s.data.len() as u64).to_le_bytes());
        out.extend_from_slice(&s.link.to_le_bytes());
        out.extend_from_slice(&s.info.to_le_bytes());
        out.extend_from_slice(&1u64.to_le_bytes()); // addralign
        out.extend_from_slice(&s.entsize.to_le_bytes());
    }

    let mut header = Vec::new();
    header.extend_from_slice(&[0x7f, b'E', b'L', b'F', 2, 1, 1, 0, 0, 0, 0, 0, 0, 0, 0, 0]);
    header.extend_from_slice(&3u16.to_le_bytes()); // a shared object
    header.extend_from_slice(&machine.to_le_bytes());
    header.extend_from_slice(&1u32.to_le_bytes());
    header.extend_from_slice(&0x1010u64.to_le_bytes()); // entry
    header.extend_from_slice(&64u64.to_le_bytes()); // phoff
    header.extend_from_slice(&shoff.to_le_bytes());
    header.extend_from_slice(&0u32.to_le_bytes());
    header.extend_from_slice(&64u16.to_le_bytes());
    header.extend_from_slice(&56u16.to_le_bytes());
    header.extend_from_slice(&phnum.to_le_bytes());
    header.extend_from_slice(&64u16.to_le_bytes());
    header.extend_from_slice(&(sections.len() as u16).to_le_bytes());
    header.extend_from_slice(&((sections.len() - 1) as u16).to_le_bytes());
    out[..64].copy_from_slice(&header);

    let mut ph = Vec::new();
    for (kind, offset, vaddr, memsz) in [(1u32, 0x10u64, 0x1000u64, 0x400u64), (4, 0x300, 0x300, 0x24)] {
        ph.extend_from_slice(&kind.to_le_bytes());
        ph.extend_from_slice(&5u32.to_le_bytes());
        ph.extend_from_slice(&offset.to_le_bytes());
        ph.extend_from_slice(&vaddr.to_le_bytes());
        ph.extend_from_slice(&(vaddr + if kind == 1 { paddr_shift } else { 0 }).to_le_bytes());
        ph.extend_from_slice(&0x20u64.to_le_bytes());
        ph.extend_from_slice(&memsz.to_le_bytes());
        ph.extend_from_slice(&8u64.to_le_bytes());
    }
    out[64..64 + ph.len()].copy_from_slice(&ph);
    out
}

const ID: [u8; 20] = [
    0x00, 0x01, 0x0f, 0x10, 0xab, 0xcd, 0xef, 0xff, 0x12, 0x34, 0x56, 0x78, 0x9a, 0xbc, 0xde, 0xf0,
    0x77, 0x88, 0x99, 0xaa,
];

#[test]
fn binary_is_read_by_both_readers() {
    let bytes = elf(0x3e, &ID, 0);
    let binary = Binary::from_bytes(bytes.clone()).unwrap();
    assert_eq!(binary.raw(), &bytes[..]);
    assert_eq!(binary.bin(), &bytes[..]);
    assert_eq!(binary.architecture(), Architecture::X86_64);
    let image = binary.elf();
    assert_eq!(image.machine, 0x3e);
    assert_eq!(
        image.program_headers,
        vec![
            ProgramHeader { p_type: 1, p_offset: 0x10, p_vaddr: 0x1000, p_paddr: 0x1000, p_memsz: 0x400 },
            ProgramHeader { p_type: 4, p_offset: 0x300, p_vaddr: 0x300, p_paddr: 0x300, p_memsz: 0x24 },
        ]
    );
    let names: Vec<_> = image.symbols.iter().map(|s| s.name.clone().unwrap()).collect();
    assert_eq!(names, vec!["", "main", "$x", "helper", "", "helper"]);
    assert_eq!(image.symbols[1].addr, 0x1010);
    assert_eq!(image.symbols[1].size, 0x20);
    assert_eq!(Arch::from_elf(image.machine), Ok(Arch::X86_64));
    assert_eq!(Arch::from_object(binary.architecture()), Ok(Arch::X86_64));
}

#[test]
fn build_id_is_the_end_of_the_note_in_hexadecimal() {
    let binary = Binary::from_bytes(elf(0xb7, &ID, 0)).unwrap();
    assert_eq!(binary.architecture(), Architecture::Aarch64);
    assert_eq!(binary.build_id().unwrap(), "00010f10abcdefff123456789abcdef0778899aa");
    let mut note = vec![9u8; 16];
    note.extend_from_slice(&ID);
    assert_eq!(
        Binary::build_id_from_note(&note).unwrap(),
        "00010f10abcdefff123456789abcdef0778899aa"
    );
    assert_eq!(Binary::build_id_from_note(&ID).unwrap().len(), 40);
    assert_eq!(Binary::build_id_from_note(&ID[1..]), None);
    assert_eq!(Binary::build_id_from_note(&[]), None);
    // a note with a short id: the last twenty bytes reach into the note's header
    let short = Binary::from_bytes(elf(0xb7, &ID[..8], 0)).unwrap();
    assert_eq!(short.build_id().unwrap(), "0800000003000000474e550000010f10abcdefff");
}

#[test]
fn what_is_no_elf_file_is_refused() {
    assert_eq!(Binary::from_bytes(vec![]).err(), Some(BinaryError::Object));
    assert_eq!(Binary::from_bytes(b"#!/bin/sh\n".to_vec()).err(), Some(BinaryError::Object));
    let mut cut = elf(0x3e, &ID, 0);
    cut.truncate(70);
    assert!(Binary::from_bytes(cut).is_err());
    assert!(Binary::debug_candidate(vec![1, 2, 3], Arch::X86_64).is_none());
}

#[test]
fn debug_file_must_be_for_the_same_architecture() {
    assert!(Binary::debug_candidate(elf(0x3e, &ID, 0), Arch::X86_64).is_some());
    assert!(Binary::debug_candidate(elf(0x3e, &ID, 0), Arch::ARM64).is_none());
    assert!(Binary::debug_candidate(elf(0xb7, &ID, 0), Arch::ARM64).is_some());
    assert!(Binary::debug_candidate(elf(0x28, &ID, 0), Arch::ARM64).is_none());
    let arm32 = Binary::from_bytes(elf(0x28, &ID, 0)).unwrap();
    assert_eq!(arm32.architecture(), Architecture::Other);
    assert_eq!(Arch::from_object(arm32.architecture()), Err(ArchError::UnknownArchitecture));
    assert_eq!(Arch::from_elf(0x28), Err(ArchError::UnknownMachine(0x28)));
}

#[test]
fn debug_files_are_looked_for_in_three_places() {
    assert_eq!(
        Binary::debug_paths("abcdef0123"),
        vec![
            "/usr/lib/debug/.build-id/ab/cdef0123.debug",
            "/usr/x86_64-linux-gnu/lib/debug/.build-id/ab/cdef0123.debug",
            "/usr/aarch64-linux-gnu/lib/debug/.build-id/ab/cdef0123.debug",
        ]
    );
    assert_eq!(Binary::debug_paths("ab")[0], "/usr/lib/debug/.build-id/ab/.debug");
    assert!(Binary::debug_paths("a").is_empty());
    assert!(Binary::debug_paths("").is_empty());
}

#[test]
fn symbols_of_an_image_are_made_relative_to_the_file() {
    let binary = Binary::from_bytes(elf(0x3e, &ID, 0)).unwrap();
    let table = SymbolTable::from_elf("/bin/a".to_string(), binary.elf()).unwrap();
    assert_eq!(table.binary_path, "/bin/a");
    assert!(table.fallback.is_none());
    assert_eq!(table.offsets.len(), 1);
    assert_eq!(table.offsets[0].offset, 0x10);
    assert_eq!(table.offsets[0].addr, 0x1000);
    assert_eq!(table.offsets[0].size, 0x400);
    assert_eq!(
        table.symbols,
        vec![
            Symbol { name: "main".to_string(), from: 0x20, to: 0x40 },
            Symbol { name: "helper".to_string(), from: 0x110, to: 0x118 },
        ]
    );
    let moved = table.add_offset(0x5000);
    assert_eq!(moved.lookup(0x5020).unwrap().to_string(), "main");
    assert_eq!(moved.lookup(0x5030).unwrap().to_string(), "main+16");
    assert_eq!(moved.lookup(0x5041), None);
}

fn image(symbols: Vec<(Option<&str>, u64, u64)>, headers: Vec<(u32, u64, u64, u64, u64)>) -> ElfImage {
    ElfImage {
        machine: 0x3e,
        program_headers: headers
            .into_iter()
            .map(|(p_type, p_offset, p_vaddr, p_paddr, p_memsz)| ProgramHeader {
                p_type,
                p_offset,
                p_vaddr,
                p_paddr,
                p_memsz,
            })
            .collect(),
        symbols: symbols
            .into_iter()
            .map(|(name, addr, size)| ElfSymbol { name: name.map(|n| n.to_string()), addr, size })
            .collect(),
    }
}

fn plain(offsets: Vec<ProgramOffset>) -> SymbolTable {
    SymbolTable {
        symbols: vec![Symbol { name: "old".to_string(), from: 1, to: 2 }],
        offsets,
        fallback: None,
        binary_path: "/bin/a".to_string(),
    }
}

#[test]
fn debug_symbols_are_kept_within_the_window() {
    let offsets = vec![
        ProgramOffset { offset: 0, addr: 0x40_0000, size: 0x1000 },
        ProgramOffset { offset: 0x1000, addr: 0x60_0000, size: 0x1000 },
        ProgramOffset { offset: 0x9000, addr: 0x40_0000, size: 0x2000 },
    ];
    let debug = image(
        vec![
            (Some("first"), 0x40_0010, 0x10),
            (Some("second"), 0x60_0020, 0x8),
            (Some("$d"), 0x60_0020, 0),
            (Some("$x"), 0x60_0020, 0),
            (Some(""), 0x60_0030, 4),
            (Some("nowhere"), 0x70_0000, 4),
            (Some("too_long"), 0x40_0ff0, 0x11),
            (Some("much_too_long"), 0x40_0ff0, 0x2011),
            (Some("only_in_the_third"), 0x40_1000, 0x10),
            (Some("to_the_end"), 0x60_0ff0, 0x10),
            (Some("zero"), 0x60_0000, 0),
        ],
        vec![(1, 0, 0, 0, 0)],
    );
    let all = plain(offsets.clone()).extend_with_debug(&debug, 0, u64::MAX).unwrap();
    let shown: Vec<_> = all.symbols.iter().map(|s| (s.name.as_str(), s.from, s.to)).collect();
    assert_eq!(
        shown,
        vec![
            ("old", 1, 2),
            ("first", 0x10, 0x20),
            ("second", 0x1020, 0x1028),
            ("too_long", 0x9ff0, 0xa001),
            ("only_in_the_third", 0xa000, 0xa010),
            ("to_the_end", 0x1ff0, 0x2000),
            ("zero", 0x1000, 0x1000),
        ]
    );
    assert_eq!(all.offsets.len(), 3);
    assert_eq!(all.binary_path, "/bin/a");

    let windowed = plain(offsets).extend_with_debug(&debug, 0x1000, 0x2000).unwrap();
    let shown: Vec<_> = windowed.symbols.iter().map(|s| s.name.as_str()).collect();
    assert_eq!(shown, vec!["old", "second", "to_the_end", "zero"]);
}

#[test]
fn symbols_at_the_top_of_the_address_space() {
    let offsets = vec![ProgramOffset { offset: 0x10, addr: 0, size: u64::MAX }];
    let debug = image(
        vec![(Some("fits"), u64::MAX - 0x20, 0x10), (Some("beyond"), u64::MAX - 0x10, 0x10)],
        vec![],
    );
    let t = plain(offsets).extend_with_debug(&debug, 0, u64::MAX).unwrap();
    let shown: Vec<_> = t.symbols.iter().map(|s| (s.name.as_str(), s.from, s.to)).collect();
    assert_eq!(shown, vec![("old", 1, 2), ("fits", u64::MAX - 0x10, u64::MAX)]);
}

#[test]
fn symbol_errors() {
    let split = image(vec![(None, 0, 0)], vec![(1, 0, 0x1000, 0x1000, 8), (6, 0, 0x40, 0x41, 8)]);
    assert_eq!(
        plain(vec![]).extend_with_debug(&split, 0, 10).err(),
        Some(SymbolError::PhysicalAddress(1))
    );
    assert_eq!(
        SymbolTable::from_elf("p".to_string(), &split).err(),
        Some(SymbolError::PhysicalAddress(1))
    );
    let nameless = image(vec![(Some("a"), 0, 0), (None, 0, 0), (None, 1, 1)], vec![(1, 0, 0, 0, 8)]);
    assert_eq!(
        plain(vec![]).extend_with_debug(&nameless, 0, 10).err(),
        Some(SymbolError::BrokenName(1))
    );
    assert_eq!(SymbolTable::intermediary_symbols(&nameless).err(), Some(SymbolError::BrokenName(1)));
    let fine = image(vec![(Some("a"), 3, 4)], vec![]);
    assert_eq!(
        SymbolTable::intermediary_symbols(&fine).unwrap(),
        vec![("a".to_string(), 3, 4)]
    );
    let shifted = Binary::from_bytes(elf(0x3e, &ID, 0x1000)).unwrap();
    assert_eq!(
        SymbolTable::from_elf("p".to_string(), shifted.elf()).err(),
        Some(SymbolError::PhysicalAddress(0))
    );
}

#[test]
fn loadable_segments_only() {
    let img = image(vec![], vec![(6, 1, 2, 2, 3), (1, 4, 5, 5, 6), (2, 7, 8, 8, 9), (1, 10, 11, 11, 12)]);
    let offsets = SymbolTable::get_offsets(&img);
    let shown: Vec<_> = offsets.iter().map(|o| (o.offset, o.addr, o.size)).collect();
    assert_eq!(shown, vec![(4, 5, 6), (10, 11, 12)]);
}

#[test]
fn table_of_a_module_with_symbols() {
    let binary = Binary::from_bytes(elf(0x3e, &ID, 0)).unwrap();
    assert!(!SymbolTable::needs_debug(&binary));
    let debug = image(vec![(Some("from_debug"), 0x1000, 1)], vec![]);
    let t = SymbolTable::for_module("/bin/a".to_string(), binary.elf(), Some(&debug), 0, 10, 0x5000)
        .unwrap();
    let shown: Vec<_> = t.symbols.iter().map(|s| (s.name.as_str(), s.from, s.to)).collect();
    assert_eq!(shown, vec![("main", 0x5020, 0x5040), ("helper", 0x5110, 0x5118)]);
    assert_eq!(t.binary_path, "/bin/a");
}

#[test]
fn table_of_a_stripped_module() {
    let stripped = image(vec![], vec![(1, 0x100, 0x1000, 0x1000, 0x1000)]);
    let debug = image(
        vec![(Some("early"), 0x1000, 0x10), (Some("late"), 0x1800, 0x10)],
        vec![(1, 0, 0, 0, 0)],
    );
    let module = |debug: Option<&ElfImage>, from, to, base| {
        SymbolTable::for_module("/lib/b".to_string(), &stripped, debug, from, to, base)
            .map(|t| t.symbols.iter().map(|s| (s.name.clone(), s.from, s.to)).collect::<Vec<_>>())
    };
    assert_eq!(module(None, 0, u64::MAX, 0x7000), Ok(vec![]));
    assert_eq!(
        module(Some(&debug), 0, u64::MAX, 0x7000),
        Ok(vec![("early".to_string(), 0x7100, 0x7110), ("late".to_string(), 0x7900, 0x7910)])
    );
    assert_eq!(
        module(Some(&debug), 0x800, 0x1000, 0x7000),
        Ok(vec![("late".to_string(), 0x7900, 0x7910)])
    );
    assert_eq!(module(Some(&debug), 0, u64::MAX, u64::MAX - 0x90f), Err(ModuleError::Relocation));
    assert!(module(Some(&debug), 0, u64::MAX, u64::MAX - 0x910).is_ok());
    let split = image(vec![], vec![(1, 0, 1, 2, 0)]);
    assert_eq!(
        module(Some(&split), 0, 1, 0),
        Err(ModuleError::Debug(SymbolError::PhysicalAddress(0)))
    );
    assert_eq!(
        SymbolTable::for_module("p".to_string(), &split, None, 0, 1, 0).err(),
        Some(ModuleError::Image(SymbolError::PhysicalAddress(0)))
    );
}

#[test]
fn tables_of_several_modules_are_chained_in_their_order() {
    let t = |name: &str| SymbolTable {
        symbols: vec![Symbol { name: name.to_string(), from: 0, to: 10 }],
        offsets: vec![],
        fallback: None,
        binary_path: name.to_string(),
    };
    assert!(SymbolTable::chain(vec![]).is_none());
    let one = SymbolTable::chain(vec![t("a")]).unwrap();
    assert_eq!(one.binary_path, "a");
    assert!(one.fallback.is_none());
    let three = SymbolTable::chain(vec![t("a"), t("b"), t("c")]).unwrap();
    assert_eq!(three.binary_path, "a");
    let second = three.fallback.as_ref().unwrap();
    assert_eq!(second.binary_path, "b");
    let third = second.fallback.as_ref().unwrap();
    assert_eq!(third.binary_path, "c");
    assert!(third.fallback.is_none());
    assert_eq!(three.lookup(5).unwrap().symbol.name, "a");
}

#[test]
fn object_file_that_is_no_elf_file_is_refused() {
    // the header of a Mach-O file for x86-64, without load commands
    let mut macho = Vec::new();
    for word in [0xfeed_facfu32, 0x0100_0007, 3, 2, 0, 0, 0, 0] {
        macho.extend_from_slice(&word.to_le_bytes());
    }
    assert_eq!(Binary::from_bytes(macho).err(), Some(BinaryError::Elf));
}

#[test]
fn first_usable_debug_file_is_taken() {
    let arm = elf(0xb7, &ID, 0);
    let x86 = elf(0x3e, &ID[..8], 0);
    let other = elf(0x3e, &ID, 0);
    let found = Binary::try_from_buildid(
        vec![None, Some(vec![1, 2, 3]), Some(arm.clone()), Some(x86.clone()), Some(other)],
        Arch::X86_64,
    )
    .unwrap();
    assert_eq!(found.raw(), &x86[..]);
    let found = Binary::try_from_buildid(vec![Some(arm.clone()), Some(x86)], Arch::ARM64).unwrap();
    assert_eq!(found.raw(), &arm[..]);
    assert!(Binary::try_from_buildid(vec![Some(arm), None], Arch::X86_64).is_none());
    assert!(Binary::try_from_buildid(vec![None, None, None], Arch::X86_64).is_none());
    assert!(Binary::try_from_buildid(vec![], Arch::X86_64).is_none());
}
