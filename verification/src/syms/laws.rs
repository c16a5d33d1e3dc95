//! What holds of every symbol table: how lookups go through a chain of
//! tables, and how relocation moves what a lookup finds.

use super::{can_shift, covering, first_covering, shifted, Symbol, SymbolTable};
use crate::search::{first_true, lemma_first_true, lemma_first_true_at};
use vstd::prelude::*;

verus! {

/// The first true flag of two sequences put together is the first of the
/// front one, or else the first of the back one.
pub proof fn lemma_first_true_concat(a: Seq<bool>, b: Seq<bool>)
    ensures
        first_true(a + b) == (match first_true(a) {
            Some(i) => Some(i),
            None => match first_true(b) {
                Some(j) => Some(a.len() + j),
                None => None,
            },
        }),
{
    lemma_first_true(a);
    lemma_first_true(b);
    let both = a + b;
    let at: int = match first_true(a) {
        Some(i) => i,
        None => match first_true(b) {
            Some(j) => a.len() + j,
            None => both.len() as int,
        },
    };
    assert forall|k: int| 0 <= k < at implies !#[trigger] both[k] by {
        if k >= a.len() {
            assert(both[k] == b[k - a.len()]);
        } else {
            assert(both[k] == a[k]);
        }
    }
    if at < both.len() {
        if first_true(a) is None {
            assert(both[at] == b[at - a.len()]);
        } else {
            assert(both[at] == a[at]);
        }
    }
    lemma_first_true_at(both, at);
}

/// What a lookup finds in a plain list of symbols: the first that holds the
/// address, with the distance from its start.
pub open spec fn resolve_in(symbols: Seq<Symbol>, adr: u64) -> Option<(Symbol, u64)> {
    match first_covering(symbols, adr) {
        Some(i) => Some((symbols[i], (adr - symbols[i].from) as u64)),
        None => None,
    }
}

/// Fallback chaining: where the first table of a chain has no symbol for an
/// address, the lookup gives what the chain behind it gives, unchanged.
pub proof fn lemma_fallback_chaining(table: SymbolTable, adr: u64)
    requires
        resolve_in(table.symbols@, adr) is None,
    ensures
        table.resolve(adr) == (match table.fallback {
            Some(next) => next.resolve(adr),
            None => None,
        }),
{
}

/// Where the first table has a symbol for an address, the tables behind it
/// are not asked.
pub proof fn lemma_primary_wins(table: SymbolTable, adr: u64)
    requires
        resolve_in(table.symbols@, adr) is Some,
    ensures
        table.resolve(adr) == resolve_in(table.symbols@, adr),
{
}

/// A lookup in a chain finds the first symbol, in the order of the chain,
/// that holds the address.
pub proof fn lemma_resolve_in_chain(table: SymbolTable, adr: u64)
    ensures
        table.resolve(adr) == resolve_in(table.chain_symbols(), adr),
    decreases table,
{
    match table.fallback {
        Some(next) => {
            lemma_resolve_in_chain(*next, adr);
            let front = table.symbols@;
            let back = next.chain_symbols();
            assert(covering(front + back, adr) =~= covering(front, adr) + covering(back, adr));
            lemma_first_true_concat(covering(front, adr), covering(back, adr));
            lemma_first_true(covering(front, adr));
            lemma_first_true(covering(back, adr));
        },
        None => {},
    }
}

/// A table pushed onto a chain comes last: the symbols of the chain are
/// tried first, in their old order, then those of the new table.
pub proof fn lemma_pushed_chain(table: SymbolTable, other: SymbolTable)
    ensures
        table.pushed(other).chain_symbols() == table.chain_symbols() + other.chain_symbols(),
        table.pushed(other).chain_len() == table.chain_len() + other.chain_len(),
        table.pushed(other).symbols == table.symbols,
    decreases table,
{
    match table.fallback {
        Some(next) => {
            lemma_pushed_chain(*next, other);
            assert(table.symbols@ + (next.chain_symbols() + other.chain_symbols()) =~= (
            table.symbols@ + next.chain_symbols()) + other.chain_symbols());
        },
        None => {},
    }
}

/// After a push, a lookup finds what it found before; only where it found
/// nothing does it go on to the new table.
pub proof fn lemma_pushed_resolve(table: SymbolTable, other: SymbolTable, adr: u64)
    ensures
        table.pushed(other).resolve(adr) == (match table.resolve(adr) {
            Some(found) => Some(found),
            None => other.resolve(adr),
        }),
    decreases table,
{
    match table.fallback {
        Some(next) => {
            lemma_pushed_resolve(*next, other, adr);
        },
        None => {},
    }
}

/// A copy of a chain answers every lookup as the chain does.
pub proof fn lemma_same_resolve(table: SymbolTable, copy: SymbolTable, adr: u64)
    requires
        copy.same(table),
    ensures
        copy.resolve(adr) == table.resolve(adr),
        copy.chain_symbols() == table.chain_symbols(),
        copy.chain_len() == table.chain_len(),
    decreases copy,
{
    match (copy.fallback, table.fallback) {
        (Some(a), Some(b)) => {
            lemma_same_resolve(*b, *a, adr);
        },
        _ => {},
    }
}

/// Relocation: the symbols moved up by `base` hold an address exactly if the
/// address is at least `base` and the old symbols hold what lies `base` below it.
pub proof fn lemma_shifted_covering(symbols: Seq<Symbol>, base: u64, adr: u64)
    requires
        can_shift(symbols, base),
    ensures
        first_covering(shifted(symbols, base), adr) == (if adr >= base {
            first_covering(symbols, (adr - base) as u64)
        } else {
            None
        }),
{
    let moved = shifted(symbols, base);
    if adr >= base {
        assert(covering(moved, adr) =~= covering(symbols, (adr - base) as u64));
    } else {
        assert forall|j: int| 0 <= j < moved.len() implies !#[trigger] covering(moved, adr)[j] by {
            assert(symbols[j].from + base <= u64::MAX);
        }
        lemma_first_true_at(covering(moved, adr), moved.len() as int);
    }
}

/// Relocation keeps names and offsets: what the moved symbols give for an
/// address is what the old ones give for the address `base` below it, with
/// the symbol's range moved up.
pub proof fn lemma_relocated_resolve(symbols: Seq<Symbol>, base: u64, adr: u64)
    requires
        can_shift(symbols, base),
    ensures
        adr < base ==> resolve_in(shifted(symbols, base), adr) is None,
        adr >= base ==> (match resolve_in(symbols, (adr - base) as u64) {
            Some((s, offset)) => resolve_in(shifted(symbols, base), adr) == Some(
                (
                    Symbol { name: s.name, from: (s.from + base) as u64, to: (s.to + base) as u64 },
                    offset,
                ),
            ),
            None => resolve_in(shifted(symbols, base), adr) is None,
        }),
{
    lemma_shifted_covering(symbols, base, adr);
    if adr >= base {
        lemma_first_true(covering(symbols, (adr - base) as u64));
    }
}

} // verus!
