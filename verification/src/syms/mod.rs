//! Symbol tables: from a runtime address to the name of the symbol around it.
//!
//! A table holds the symbols of one image. Tables of several images are
//! chained: a lookup asks the first table and, on a miss, the tables behind
//! it in the order in which they were added.

pub mod laws;

use crate::binary::{Binary, ElfImage, ElfSymbol, ProgramHeader, PT_LOAD};
use crate::search::{first_true, lemma_first_true_at};
use crate::text::{decimal, push_decimal, str_eq};
use vstd::prelude::*;
use vstd::string::StringExecFns;

verus! {

/// A named range of addresses, both ends included.
#[derive(Debug, Clone, PartialEq)]
pub struct Symbol {
    pub name: String,
    pub from: u64,
    pub to: u64,
}

/// A loadable segment: where it lies in the file, where in memory, and how large it is.
#[derive(Debug, Clone, Copy)]
pub struct ProgramOffset {
    pub offset: u64,
    pub addr: u64,
    pub size: u64,
}

/// The symbols of one image, with the tables of further images behind it.
#[derive(Debug)]
pub struct SymbolTable {
    pub symbols: Vec<Symbol>,
    pub offsets: Vec<ProgramOffset>,
    pub fallback: Option<Box<SymbolTable>>,
    /// The image these symbols were read for, not the file of its debug info.
    pub binary_path: String,
}

/// A symbol found for an address, and how far behind the symbol's start the address lies.
#[derive(Debug, Clone, PartialEq)]
pub struct SymbolReference<'a> {
    pub symbol: &'a Symbol,
    pub offset: u64,
}

/// The address lies in the symbol's range.
pub open spec fn covers(s: Symbol, adr: u64) -> bool {
    s.from <= adr <= s.to
}

/// For each symbol, whether its range holds `adr`.
pub open spec fn covering(symbols: Seq<Symbol>, adr: u64) -> Seq<bool> {
    Seq::new(symbols.len(), |i: int| covers(symbols[i], adr))
}

/// The index of the first symbol whose range holds `adr`.
pub open spec fn first_covering(symbols: Seq<Symbol>, adr: u64) -> Option<int> {
    first_true(covering(symbols, adr))
}

/// Each symbol moved up by `base`.
pub open spec fn shifted(symbols: Seq<Symbol>, base: u64) -> Seq<Symbol> {
    Seq::new(
        symbols.len(),
        |i: int|
            Symbol {
                name: symbols[i].name,
                from: (symbols[i].from + base) as u64,
                to: (symbols[i].to + base) as u64,
            },
    )
}

/// Moving the symbols up by `base` keeps every range within the address space.
pub open spec fn can_shift(symbols: Seq<Symbol>, base: u64) -> bool {
    forall|i: int|
        0 <= i < symbols.len() ==> (#[trigger] symbols[i]).from + base <= u64::MAX
            && symbols[i].to + base <= u64::MAX
}

/// How a found symbol is shown: its name, and behind it, unless the address
/// is the symbol's start, a plus sign and the offset in decimal.
pub open spec fn rendered(name: Seq<char>, offset: u64) -> Seq<char> {
    if offset == 0 {
        name
    } else {
        name + seq!['+'] + decimal(offset as nat)
    }
}

/// Why the symbols of an ELF image could not be read.
#[derive(Debug, Clone, Copy, PartialEq, Eq, Structural)]
pub enum SymbolError {
    /// The program header of this index has a physical address that differs
    /// from its virtual address.
    PhysicalAddress(usize),
    /// The symbol of this index has a name offset outside the string table.
    BrokenName(usize),
}

/// Why a module has no symbol table.
#[derive(Debug, Clone, Copy, PartialEq, Eq, Structural)]
pub enum ModuleError {
    /// The symbols of the module could not be read.
    Image(SymbolError),
    /// The symbols of the module's debug file could not be read.
    Debug(SymbolError),
    /// Loaded at its base, a symbol would lie beyond the address space.
    Relocation,
}

/// The name marks data or code for the assembler and names nothing.
pub open spec fn is_mapping_symbol(name: Seq<char>) -> bool {
    name == "$d"@ || name == "$x"@
}

/// The loadable segments among the program headers, in their order.
pub open spec fn load_segments(headers: Seq<ProgramHeader>) -> Seq<ProgramOffset>
    decreases headers.len(),
{
    if headers.len() == 0 {
        Seq::empty()
    } else {
        let front = load_segments(headers.drop_last());
        let ph = headers.last();
        if ph.p_type == PT_LOAD {
            front.push(ProgramOffset { offset: ph.p_offset, addr: ph.p_vaddr, size: ph.p_memsz })
        } else {
            front
        }
    }
}

/// The segment holds the whole of `[addr, addr + size]`.
pub open spec fn in_segment(o: ProgramOffset, addr: u64, size: u64) -> bool {
    o.addr <= addr && addr + size <= o.addr + o.size
}

/// For each segment, whether it holds `[addr, addr + size]`.
pub open spec fn holding(offsets: Seq<ProgramOffset>, addr: u64, size: u64) -> Seq<bool> {
    Seq::new(offsets.len(), |i: int| in_segment(offsets[i], addr, size))
}

/// The symbol that an ELF symbol entry gives, if it gives one: named, no
/// mapping symbol, inside a segment, and, once made relative to the file
/// by that segment, inside the window `[from, to]`.
pub open spec fn debug_symbol(
    offsets: Seq<ProgramOffset>,
    name: String,
    addr: u64,
    size: u64,
    from: u64,
    to: u64,
) -> Option<Symbol> {
    if is_mapping_symbol(name@) || name@.len() == 0 {
        None
    } else {
        match first_true(holding(offsets, addr, size)) {
            None => None,
            Some(i) => {
                let start = addr + offsets[i].offset - offsets[i].addr;
                let end = start + size;
                if start < from || end > to {
                    None
                } else {
                    Some(Symbol { name, from: start as u64, to: end as u64 })
                }
            },
        }
    }
}

/// The symbols that a list of entries gives, in the order of the entries.
pub open spec fn debug_symbols(
    offsets: Seq<ProgramOffset>,
    entries: Seq<(String, u64, u64)>,
    from: u64,
    to: u64,
) -> Seq<Symbol>
    decreases entries.len(),
{
    if entries.len() == 0 {
        Seq::empty()
    } else {
        let front = debug_symbols(offsets, entries.drop_last(), from, to);
        let e = entries.last();
        match debug_symbol(offsets, e.0, e.1, e.2, from, to) {
            Some(s) => front.push(s),
            None => front,
        }
    }
}

/// Every program header has its physical address equal to its virtual one.
pub open spec fn flat(headers: Seq<ProgramHeader>) -> bool {
    forall|i: int| 0 <= i < headers.len() ==> (#[trigger] headers[i]).p_vaddr == headers[i].p_paddr
}

/// Every symbol entry has a name.
pub open spec fn named(symbols: Seq<ElfSymbol>) -> bool {
    forall|i: int| 0 <= i < symbols.len() ==> (#[trigger] symbols[i]).name is Some
}

/// The symbols of the image can be read: its program headers are flat and
/// its symbols are named.
pub open spec fn readable(elf: ElfImage) -> bool {
    flat(elf.program_headers@) && named(elf.symbols@)
}

/// The symbols of the image cannot be read, for the reason `e`: the first
/// program header that is not flat, or, if all are flat, the first symbol
/// without a name.
pub open spec fn refused(elf: ElfImage, e: SymbolError) -> bool {
    match e {
        SymbolError::PhysicalAddress(i) => {
            &&& i < elf.program_headers@.len()
            &&& elf.program_headers@[i as int].p_vaddr != elf.program_headers@[i as int].p_paddr
            &&& flat(elf.program_headers@.subrange(0, i as int))
        },
        SymbolError::BrokenName(i) => {
            &&& flat(elf.program_headers@)
            &&& i < elf.symbols@.len()
            &&& elf.symbols@[i as int].name is None
            &&& named(elf.symbols@.subrange(0, i as int))
        },
    }
}

/// An image is refused for one reason only, and not at all if it is readable.
pub proof fn lemma_refused_once(elf: ElfImage, e: SymbolError, f: SymbolError)
    requires
        refused(elf, e),
    ensures
        !readable(elf),
        refused(elf, f) ==> e == f,
{
    let headers = elf.program_headers@;
    let symbols = elf.symbols@;
    match e {
        SymbolError::PhysicalAddress(i) => {
            assert(headers[i as int].p_vaddr != headers[i as int].p_paddr);
            match f {
                SymbolError::PhysicalAddress(j) => {
                    if refused(elf, f) && i < j {
                        assert(headers.subrange(0, j as int)[i as int] == headers[i as int]);
                    }
                    if refused(elf, f) && j < i {
                        assert(headers.subrange(0, i as int)[j as int] == headers[j as int]);
                    }
                },
                SymbolError::BrokenName(_) => {},
            }
        },
        SymbolError::BrokenName(i) => {
            assert(symbols[i as int].name is None);
            match f {
                SymbolError::PhysicalAddress(j) => {
                    if refused(elf, f) {
                        assert(headers[j as int].p_vaddr != headers[j as int].p_paddr);
                    }
                },
                SymbolError::BrokenName(j) => {
                    if refused(elf, f) && i < j {
                        assert(symbols.subrange(0, j as int)[i as int] == symbols[i as int]);
                    }
                    if refused(elf, f) && j < i {
                        assert(symbols.subrange(0, i as int)[j as int] == symbols[j as int]);
                    }
                },
            }
        },
    }
}

/// The entries as name, address and size.
pub open spec fn entries_of(symbols: Seq<ElfSymbol>) -> Seq<(String, u64, u64)> {
    Seq::new(symbols.len(), |i: int| (symbols[i].name->0, symbols[i].addr, symbols[i].size))
}

impl Clone for SymbolTable {
    /// A copy of the table and of the tables behind it.
    fn clone(&self) -> (copy: Self)
        ensures
            copy.same(*self),
        decreases self,
    {
        let mut symbols: Vec<Symbol> = Vec::new();
        let mut i: usize = 0;
        while i < self.symbols.len()
            invariant
                i <= self.symbols@.len(),
                symbols@ =~= self.symbols@.subrange(0, i as int),
            decreases self.symbols.len() - i,
        {
            let s = &self.symbols[i];
            symbols.push(Symbol { name: s.name.clone(), from: s.from, to: s.to });
            i += 1;
        }
        assert(symbols@ =~= self.symbols@);
        let mut offsets: Vec<ProgramOffset> = Vec::new();
        let mut k: usize = 0;
        while k < self.offsets.len()
            invariant
                k <= self.offsets@.len(),
                offsets@ =~= self.offsets@.subrange(0, k as int),
            decreases self.offsets.len() - k,
        {
            offsets.push(self.offsets[k]);
            k += 1;
        }
        assert(offsets@ =~= self.offsets@);
        let fallback = match &self.fallback {
            Some(next) => Some(Box::new((&**next).clone())),
            None => None,
        };
        SymbolTable { symbols, offsets, fallback, binary_path: self.binary_path.clone() }
    }
}

impl<'a> SymbolReference<'a> {
    /// The reference as text: `name` or `name+offset`.
    pub fn to_string(&self) -> (text: String)
        ensures
            text@ == rendered(self.symbol.name@, self.offset),
    {
        let mut text = self.symbol.name.clone();
        if self.offset != 0 {
            proof {
                reveal_strlit("+");
            }
            text.append("+");
            assert(text@ =~= self.symbol.name@ + seq!['+']);
            push_decimal(&mut text, self.offset);
        }
        text
    }
}

impl SymbolTable {
    /// The loadable segments of an image.
    pub fn get_offsets(elf: &ElfImage) -> (offsets: Vec<ProgramOffset>)
        ensures
            offsets@ == load_segments(elf.program_headers@),
    {
        let mut offsets: Vec<ProgramOffset> = Vec::new();
        let mut i: usize = 0;
        while i < elf.program_headers.len()
            invariant
                i <= elf.program_headers.len(),
                offsets@ == load_segments(elf.program_headers@.subrange(0, i as int)),
            decreases elf.program_headers.len() - i,
        {
            let ph = &elf.program_headers[i];
            proof {
                let next = elf.program_headers@.subrange(0, i + 1);
                assert(next.drop_last() =~= elf.program_headers@.subrange(0, i as int));
                assert(next.last() == *ph);
            }
            if ph.p_type == PT_LOAD {
                offsets.push(ProgramOffset { offset: ph.p_offset, addr: ph.p_vaddr, size: ph.p_memsz });
            }
            i += 1;
        }
        assert(elf.program_headers@.subrange(0, i as int) =~= elf.program_headers@);
        offsets
    }

    /// The symbol entries of an image as name, address and size. Fails at the
    /// first entry whose name the string table does not have.
    pub fn intermediary_symbols(elf: &ElfImage) -> (r: Result<Vec<(String, u64, u64)>, SymbolError>)
        ensures
            match r {
                Ok(entries) => named(elf.symbols@) && entries@ == entries_of(elf.symbols@),
                Err(SymbolError::BrokenName(i)) => i < elf.symbols@.len() && elf.symbols@[i as int].name
                    is None && named(elf.symbols@.subrange(0, i as int)),
                Err(_) => false,
            },
    {
        let mut entries: Vec<(String, u64, u64)> = Vec::new();
        let mut i: usize = 0;
        while i < elf.symbols.len()
            invariant
                i <= elf.symbols.len(),
                named(elf.symbols@.subrange(0, i as int)),
                entries@ =~= entries_of(elf.symbols@.subrange(0, i as int)),
            decreases elf.symbols.len() - i,
        {
            let sym = &elf.symbols[i];
            match &sym.name {
                Some(name) => {
                    entries.push((name.clone(), sym.addr, sym.size));
                },
                None => {
                    return Err(SymbolError::BrokenName(i));
                },
            }
            proof {
                let next = elf.symbols@.subrange(0, i + 1);
                assert forall|j: int| 0 <= j < next.len() implies (#[trigger] next[j]).name is Some by {
                    if j < i {
                        assert(next[j] == elf.symbols@.subrange(0, i as int)[j]);
                    }
                }
            }
            i += 1;
        }
        assert(elf.symbols@.subrange(0, i as int) =~= elf.symbols@);
        Ok(entries)
    }

    /// The segment that holds `[addr, addr + size]`, the first if there are several.
    fn find_segment(&self, addr: u64, size: u64) -> (found: Option<usize>)
        ensures
            found is None <==> first_true(holding(self.offsets@, addr, size)) is None,
            found matches Some(k) ==> first_true(holding(self.offsets@, addr, size)) == Some(
                k as int,
            ) && k < self.offsets@.len() && in_segment(self.offsets@[k as int], addr, size),
    {
        let mut i: usize = 0;
        while i < self.offsets.len()
            invariant
                i <= self.offsets.len(),
                forall|j: int| 0 <= j < i ==> !#[trigger] holding(self.offsets@, addr, size)[j],
            decreases self.offsets.len() - i,
        {
            let o = &self.offsets[i];
            if o.addr <= addr && addr as u128 + size as u128 <= o.addr as u128 + o.size as u128 {
                proof {
                    assert(holding(self.offsets@, addr, size)[i as int]);
                    lemma_first_true_at(holding(self.offsets@, addr, size), i as int);
                }
                return Some(i);
            }
            i += 1;
        }
        proof {
            lemma_first_true_at(holding(self.offsets@, addr, size), i as int);
        }
        None
    }

    /// Adds the symbols of a debug image to this table.
    ///
    /// Each symbol is made relative to the file by the segment of this table
    /// that holds it, and is added only if it then lies inside `[from, to]`.
    /// Unnamed symbols, mapping symbols and symbols outside every segment are
    /// left out. Fails if a program header of the debug image has a physical
    /// address other than its virtual one, or if a symbol's name is broken.
    ///
    /// Every image is answered: these two faults are told as errors. The
    /// image is a file of the traced system, and whether it has them is
    /// known only once it is read; a file that cannot be used is no reason
    /// to end the analysis, and the caller decides what to do without it.
    pub fn extend_with_debug(self, debug_elf: &ElfImage, from: u64, to: u64) -> (r: Result<
        Self,
        SymbolError,
    >)
        ensures
            match r {
                Ok(table) => {
                    &&& readable(*debug_elf)
                    &&& table.symbols@ == self.symbols@ + debug_symbols(
                        self.offsets@,
                        entries_of(debug_elf.symbols@),
                        from,
                        to,
                    )
                    &&& table.offsets == self.offsets
                    &&& table.fallback == self.fallback
                    &&& table.binary_path == self.binary_path
                },
                Err(e) => refused(*debug_elf, e),
            },
    {
        let mut h: usize = 0;
        while h < debug_elf.program_headers.len()
            invariant
                h <= debug_elf.program_headers.len(),
                flat(debug_elf.program_headers@.subrange(0, h as int)),
            decreases debug_elf.program_headers.len() - h,
        {
            let ph = &debug_elf.program_headers[h];
            if ph.p_vaddr != ph.p_paddr {
                return Err(SymbolError::PhysicalAddress(h));
            }
            proof {
                let next = debug_elf.program_headers@.subrange(0, h + 1);
                assert forall|j: int| 0 <= j < next.len() implies (#[trigger] next[j]).p_vaddr
                    == next[j].p_paddr by {
                    if j < h {
                        assert(next[j] == debug_elf.program_headers@.subrange(0, h as int)[j]);
                    }
                }
            }
            h += 1;
        }
        assert(debug_elf.program_headers@.subrange(0, h as int) =~= debug_elf.program_headers@);
        let entries = match Self::intermediary_symbols(debug_elf) {
            Ok(entries) => entries,
            Err(e) => {
                return Err(e);
            },
        };
        let mut table = self;
        let ghost before = table.symbols@;
        let mut i: usize = 0;
        while i < entries.len()
            invariant
                i <= entries.len(),
                table.offsets == self.offsets,
                table.fallback == self.fallback,
                table.binary_path == self.binary_path,
                before == self.symbols@,
                table.symbols@ == before + debug_symbols(
                    self.offsets@,
                    entries@.subrange(0, i as int),
                    from,
                    to,
                ),
            decreases entries.len() - i,
        {
            let entry = &entries[i];
            let ghost done = debug_symbols(self.offsets@, entries@.subrange(0, i as int), from, to);
            proof {
                let next = entries@.subrange(0, i + 1);
                assert(next.drop_last() =~= entries@.subrange(0, i as int));
                assert(next.last() == *entry);
            }
            let ghost expected = debug_symbol(self.offsets@, entry.0, entry.1, entry.2, from, to);
            let name = entry.0.as_str();
            let mut added = false;
            if !(str_eq(name, "$d") || str_eq(name, "$x") || name.is_empty()) {
                assert(!is_mapping_symbol(entry.0@) && entry.0@.len() != 0);
                if let Some(k) = table.find_segment(entry.1, entry.2) {
                    let o = &table.offsets[k];
                    let start: u128 = entry.1 as u128 + o.offset as u128 - o.addr as u128;
                    let end: u128 = start + entry.2 as u128;
                    if !(start < from as u128 || end > to as u128) {
                        let symbol = Symbol {
                            name: entry.0.clone(),
                            from: start as u64,
                            to: end as u64,
                        };
                        assert(expected == Some(symbol));
                        table.symbols.push(symbol);
                        added = true;
                    }
                }
            }
            proof {
                if added {
                    assert(table.symbols@ =~= before + done.push(expected->0));
                } else {
                    assert(expected is None);
                }
            }
            i += 1;
        }
        assert(entries@.subrange(0, i as int) =~= entries@);
        Ok(table)
    }

    /// The symbol table of an image, for the binary at `path`: its loadable
    /// segments, and every symbol of the image that lies in one of them,
    /// made relative to the file.
    pub fn from_elf(path: String, elf: &ElfImage) -> (r: Result<Self, SymbolError>)
        ensures
            match r {
                Ok(table) => {
                    &&& readable(*elf)
                    &&& table.symbols@ == debug_symbols(
                        load_segments(elf.program_headers@),
                        entries_of(elf.symbols@),
                        0,
                        u64::MAX,
                    )
                    &&& table.offsets@ == load_segments(elf.program_headers@)
                    &&& table.fallback is None
                    &&& table.binary_path == path
                },
                Err(e) => refused(*elf, e),
            },
    {
        let empty = SymbolTable {
            symbols: Vec::new(),
            offsets: Self::get_offsets(elf),
            fallback: None,
            binary_path: path,
        };
        let r = empty.extend_with_debug(elf, 0, u64::MAX);
        proof {
            if r is Ok {
                assert(r->Ok_0.symbols@ =~= debug_symbols(
                    load_segments(elf.program_headers@),
                    entries_of(elf.symbols@),
                    0,
                    u64::MAX,
                ));
            }
        }
        r
    }

    /// Whether the image has no symbols of its own, so that its debug file
    /// is worth looking for.
    pub fn needs_debug(binary: &Binary) -> (r: bool)
        ensures
            r == (binary.image().symbols@.len() == 0),
    {
        binary.elf().symbols.len() == 0
    }

    /// The symbol table of a module that is loaded at `base`.
    ///
    /// The symbols are those of the image; if it has none and a debug file
    /// is given, those of the debug file that lie inside `[from, to]`.
    /// They are then moved to where the module is loaded.
    pub fn for_module(
        path: String,
        elf: &ElfImage,
        debug: Option<&ElfImage>,
        from: u64,
        to: u64,
        base: u64,
    ) -> (r: Result<Self, ModuleError>)
        ensures
            match r {
                Ok(table) => {
                    &&& readable(*elf)
                    &&& Self::asks_debug(*elf, debug) ==> readable(*debug->0)
                    &&& can_shift(Self::module_symbols(*elf, debug, from, to), base)
                    &&& table.symbols@ == shifted(
                        Self::module_symbols(*elf, debug, from, to),
                        base,
                    )
                    &&& table.offsets@ == load_segments(elf.program_headers@)
                    &&& table.fallback is None
                    &&& table.binary_path == path
                },
                Err(ModuleError::Image(e)) => refused(*elf, e),
                Err(ModuleError::Debug(e)) => readable(*elf) && Self::asks_debug(*elf, debug)
                    && refused(*debug->0, e),
                Err(ModuleError::Relocation) => {
                    &&& readable(*elf)
                    &&& Self::asks_debug(*elf, debug) ==> readable(*debug->0)
                    &&& !can_shift(Self::module_symbols(*elf, debug, from, to), base)
                },
            },
    {
        let mut table = match Self::from_elf(path, elf) {
            Ok(table) => table,
            Err(e) => {
                return Err(ModuleError::Image(e));
            },
        };
        if elf.symbols.len() == 0 {
            if let Some(debug_elf) = debug {
                assert(entries_of(elf.symbols@) =~= Seq::<(String, u64, u64)>::empty());
                assert(table.symbols@ =~= Seq::<Symbol>::empty());
                table = match table.extend_with_debug(debug_elf, from, to) {
                    Ok(table) => table,
                    Err(e) => {
                        return Err(ModuleError::Debug(e));
                    },
                };
                assert(table.symbols@ =~= Self::module_symbols(*elf, debug, from, to));
            }
        }
        if !table.can_add_offset(base) {
            return Err(ModuleError::Relocation);
        }
        Ok(table.add_offset(base))
    }

    /// The debug file is asked for the symbols: the image has none, and
    /// there is a debug file.
    pub open spec fn asks_debug(elf: ElfImage, debug: Option<&ElfImage>) -> bool {
        elf.symbols@.len() == 0 && debug is Some
    }

    /// The symbols of a module, relative to its file: those of the image,
    /// or, if it has none, those of its debug file inside `[from, to]`.
    pub open spec fn module_symbols(
        elf: ElfImage,
        debug: Option<&ElfImage>,
        from: u64,
        to: u64,
    ) -> Seq<Symbol> {
        let segments = load_segments(elf.program_headers@);
        if Self::asks_debug(elf, debug) {
            debug_symbols(segments, entries_of(debug->0.symbols@), from, to)
        } else {
            debug_symbols(segments, entries_of(elf.symbols@), 0, u64::MAX)
        }
    }

    /// The tables of several modules as one chain, the first module first.
    /// There is no chain of no tables.
    pub fn chain(tables: Vec<SymbolTable>) -> (r: Option<SymbolTable>)
        ensures
            r is None <==> tables@.len() == 0,
            r matches Some(all) ==> all == Self::chained(tables@),
    {
        let mut tables = tables;
        let ghost given = tables@;
        let mut all: Option<SymbolTable> = None;
        while tables.len() > 0
            invariant
                tables@.len() <= given.len(),
                tables@ == given.subrange(0, tables@.len() as int),
                match all {
                    Some(t) => tables@.len() < given.len() && t == Self::chained(
                        given.subrange(tables@.len() as int, given.len() as int),
                    ),
                    None => tables@.len() == given.len(),
                },
            decreases tables@.len(),
        {
            let ghost k = tables@.len() - 1;
            let mut last = tables.pop().unwrap();
            proof {
                let tail = given.subrange(k, given.len() as int);
                assert(tail[0] == last);
                assert(tail.drop_first() =~= given.subrange(k + 1, given.len() as int));
                assert(tables@ =~= given.subrange(0, k));
            }
            match all {
                Some(rest) => {
                    last.push_table(rest);
                },
                None => {},
            }
            all = Some(last);
        }
        assert(given.subrange(0, given.len() as int) =~= given);
        all
    }

    /// The chain of some tables: the first one, with the chain of the others
    /// pushed behind it.
    pub open spec fn chained(tables: Seq<SymbolTable>) -> SymbolTable
        recommends
            tables.len() > 0,
        decreases tables.len(),
    {
        if tables.len() <= 1 {
            tables[0]
        } else {
            tables[0].pushed(Self::chained(tables.drop_first()))
        }
    }

    /// What a lookup of `adr` finds: the first symbol of this table that holds
    /// the address, with the distance from its start; on a miss, what the
    /// tables behind this one find.
    pub open spec fn resolve(self, adr: u64) -> Option<(Symbol, u64)>
        decreases self,
    {
        match first_covering(self.symbols@, adr) {
            Some(i) => Some((self.symbols@[i], (adr - self.symbols@[i].from) as u64)),
            None => match self.fallback {
                Some(next) => next.resolve(adr),
                None => None,
            },
        }
    }

    /// The chain holds what `other` holds: the same symbols, segments and
    /// path in every table, and as many tables.
    pub open spec fn same(self, other: SymbolTable) -> bool
        decreases self,
    {
        &&& self.symbols@ == other.symbols@
        &&& self.offsets@ == other.offsets@
        &&& self.binary_path == other.binary_path
        &&& match (self.fallback, other.fallback) {
            (Some(a), Some(b)) => a.same(*b),
            (None, None) => true,
            _ => false,
        }
    }

    /// This chain of tables with `other` added behind its last table.
    pub open spec fn pushed(self, other: SymbolTable) -> SymbolTable
        decreases self,
    {
        match self.fallback {
            Some(next) => SymbolTable { fallback: Some(Box::new(next.pushed(other))), ..self },
            None => SymbolTable { fallback: Some(Box::new(other)), ..self },
        }
    }

    /// The number of tables in the chain.
    pub open spec fn chain_len(self) -> nat
        decreases self,
    {
        match self.fallback {
            Some(next) => 1 + next.chain_len(),
            None => 1,
        }
    }

    /// The symbols of the whole chain, in the order in which a lookup tries them.
    pub open spec fn chain_symbols(self) -> Seq<Symbol>
        decreases self,
    {
        match self.fallback {
            Some(next) => self.symbols@ + next.chain_symbols(),
            None => self.symbols@,
        }
    }

    /// Whether `add_offset(base)` keeps every symbol within the address space.
    pub fn can_add_offset(&self, base: u64) -> (ok: bool)
        ensures
            ok == can_shift(self.symbols@, base),
    {
        let mut i: usize = 0;
        while i < self.symbols.len()
            invariant
                i <= self.symbols.len(),
                forall|j: int|
                    0 <= j < i ==> (#[trigger] self.symbols@[j]).from + base <= u64::MAX
                        && self.symbols@[j].to + base <= u64::MAX,
            decreases self.symbols.len() - i,
        {
            let s = &self.symbols[i];
            if s.from > u64::MAX - base || s.to > u64::MAX - base {
                return false;
            }
            i += 1;
        }
        true
    }

    /// Moves the symbols of this table to where the image was loaded: every
    /// range is shifted up by `base`. The tables behind this one stay as they are.
    pub fn add_offset(self, base: u64) -> (moved: Self)
        requires
            can_shift(self.symbols@, base),
        ensures
            moved.symbols@ == shifted(self.symbols@, base),
            moved.offsets == self.offsets,
            moved.fallback == self.fallback,
            moved.binary_path == self.binary_path,
    {
        let SymbolTable { symbols, offsets, fallback, binary_path } = self;
        let mut moved: Vec<Symbol> = Vec::new();
        let mut i: usize = 0;
        while i < symbols.len()
            invariant
                i <= symbols.len(),
                can_shift(symbols@, base),
                moved@ =~= shifted(symbols@, base).subrange(0, i as int),
            decreases symbols.len() - i,
        {
            let s = &symbols[i];
            moved.push(Symbol { name: s.name.clone(), from: s.from + base, to: s.to + base });
            i += 1;
        }
        assert(moved@ =~= shifted(symbols@, base));
        SymbolTable { symbols: moved, offsets, fallback, binary_path }
    }

    /// The symbol around `adr`: the first of this table whose range holds the
    /// address, else what the tables behind it find.
    pub fn lookup(&self, adr: u64) -> (found: Option<SymbolReference<'_>>)
        ensures
            found is None <==> self.resolve(adr) is None,
            found matches Some(r) ==> self.resolve(adr) == Some((*r.symbol, r.offset)),
        decreases self,
    {
        let mut i: usize = 0;
        while i < self.symbols.len()
            invariant
                i <= self.symbols.len(),
                forall|j: int| 0 <= j < i ==> !covers(#[trigger] self.symbols@[j], adr),
            decreases self.symbols.len() - i,
        {
            let s = &self.symbols[i];
            if s.from <= adr && adr <= s.to {
                proof {
                    lemma_first_true_at(covering(self.symbols@, adr), i as int);
                }
                return Some(SymbolReference { symbol: s, offset: adr - s.from });
            }
            i += 1;
        }
        proof {
            lemma_first_true_at(covering(self.symbols@, adr), i as int);
        }
        match &self.fallback {
            Some(next) => next.lookup(adr),
            None => None,
        }
    }

    /// Adds `other` behind the last table of the chain.
    pub fn push_table(&mut self, other: Self)
        ensures
            *final(self) == old(self).pushed(other),
        decreases *old(self),
    {
        match &mut self.fallback {
            Some(next) => {
                next.push_table(other);
            },
            None => {
                self.fallback = Some(Box::new(other));
            },
        }
    }
}

} // verus!
