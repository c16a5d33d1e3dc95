//! Memory history kept per byte address.
//!
//! Every byte address owns a list of versions `(tick, value)` with strictly
//! increasing ticks. A load at tick `t` sees, for each byte, the latest version
//! whose tick is not after `t`. Multi-byte values are big-endian: the most
//! significant byte lives at the lowest address.

use std::collections::HashMap;
use vstd::prelude::*;

verus! {

broadcast use vstd::std_specs::hash::group_hash_axioms;

/// The ticks of a history strictly increase.
pub open spec fn ticks_increasing(h: Seq<(u32, u8)>) -> bool {
    forall|i: int, j: int| 0 <= i < j < h.len() ==> h[i].0 < h[j].0
}

/// The value a history shows at `tick`: that of the latest version that is
/// not younger than `tick`, if there is one.
pub open spec fn value_at(h: Seq<(u32, u8)>, tick: u32) -> Option<u8>
    decreases h.len(),
{
    if h.len() == 0 {
        None
    } else if h.last().0 <= tick {
        Some(h.last().1)
    } else {
        value_at(h.drop_last(), tick)
    }
}

/// A write at `tick` is accepted unless the history already holds a younger version.
pub open spec fn accepts(h: Seq<(u32, u8)>, tick: u32) -> bool {
    h.len() == 0 || h.last().0 <= tick
}

/// The history after writing `value` at `tick`: a new version is appended, a
/// version of the same tick is overwritten, and a rejected write changes nothing.
pub open spec fn record(h: Seq<(u32, u8)>, tick: u32, value: u8) -> Seq<(u32, u8)> {
    if !accepts(h, tick) {
        h
    } else if h.len() > 0 && h.last().0 == tick {
        h.update(h.len() - 1, (tick, value))
    } else {
        h.push((tick, value))
    }
}

/// Where a history splits at `k` into the versions up to `tick` and the
/// younger ones, `value_at` is the value of the last version before `k`.
pub proof fn lemma_value_at_split(h: Seq<(u32, u8)>, tick: u32, k: int)
    requires
        0 <= k <= h.len(),
        forall|i: int| 0 <= i < k ==> (#[trigger] h[i]).0 <= tick,
        forall|i: int| k <= i < h.len() ==> (#[trigger] h[i]).0 > tick,
    ensures
        value_at(h, tick) == (if k == 0 {
            None
        } else {
            Some(h[k - 1].1)
        }),
    decreases h.len(),
{
    if h.len() == 0 {
    } else if k == h.len() {
        assert(h.last() == h[k - 1]);
    } else {
        let g = h.drop_last();
        assert(h.last() == h[h.len() - 1]);
        assert forall|i: int| 0 <= i < k implies (#[trigger] g[i]).0 <= tick by {
            assert(g[i] == h[i]);
        }
        assert forall|i: int| k <= i < g.len() implies (#[trigger] g[i]).0 > tick by {
            assert(g[i] == h[i]);
        }
        lemma_value_at_split(g, tick, k);
        if k > 0 {
            assert(g[k - 1] == h[k - 1]);
        }
    }
}

/// Recording keeps the ticks increasing.
pub proof fn lemma_record_increasing(h: Seq<(u32, u8)>, tick: u32, value: u8)
    requires
        ticks_increasing(h),
    ensures
        ticks_increasing(record(h, tick, value)),
{
    let r = record(h, tick, value);
    assert forall|i: int, j: int| 0 <= i < j < r.len() implies r[i].0 < r[j].0 by {
        if j < h.len() - 1 {
            assert(r[i] == h[i] && r[j] == h[j]);
        } else if h.len() > 0 && i < h.len() - 1 {
            assert(r[i] == h[i]);
            assert(h[i].0 < h[h.len() - 1].0);
        }
    }
}

/// Right after an accepted write, the written value is what the history
/// shows at the tick of the write and at every later tick.
pub proof fn lemma_record_then_value_at(h: Seq<(u32, u8)>, tick: u32, value: u8, later: u32)
    requires
        accepts(h, tick),
        tick <= later,
    ensures
        value_at(record(h, tick, value), later) == Some(value),
{
    let r = record(h, tick, value);
    assert(r.last() == (tick, value));
}

/// A write does not change what the history shows at earlier ticks.
pub proof fn lemma_record_keeps_past(h: Seq<(u32, u8)>, tick: u32, value: u8, earlier: u32)
    requires
        earlier < tick,
    ensures
        value_at(record(h, tick, value), earlier) == value_at(h, earlier),
{
    let r = record(h, tick, value);
    if !accepts(h, tick) {
    } else if h.len() > 0 && h.last().0 == tick {
        assert(r.drop_last() =~= h.drop_last());
    } else {
        assert(r.drop_last() =~= h);
    }
}

/// The versions of one byte address.
#[derive(Debug)]
pub struct MCell {
    values: Vec<(u32, u8)>,
}

impl View for MCell {
    type V = Seq<(u32, u8)>;

    closed spec fn view(&self) -> Seq<(u32, u8)> {
        self.values@
    }
}

impl MCell {
    /// The versions are ordered by strictly increasing tick.
    pub open spec fn wf(&self) -> bool {
        ticks_increasing(self@)
    }

    /// A cell without versions.
    pub fn new() -> (cell: Self)
        ensures
            cell@ == Seq::<(u32, u8)>::empty(),
            cell.wf(),
    {
        Self { values: Vec::new() }
    }

    /// Writes `value` at `tick`. Fails, changing nothing, when a younger
    /// version is already recorded.
    pub fn add_tick(&mut self, tick: u32, value: u8) -> (r: Result<(), ()>)
        requires
            old(self).wf(),
        ensures
            r is Ok <==> accepts(old(self)@, tick),
            final(self)@ == record(old(self)@, tick, value),
            final(self).wf(),
    {
        proof {
            lemma_record_increasing(self@, tick, value);
        }
        let n = self.values.len();
        if n > 0 {
            let last = self.values[n - 1];
            if tick < last.0 {
                return Err(());
            }
            if last.0 == tick {
                self.values[n - 1] = (tick, value);
                return Ok(());
            }
        }
        self.values.push((tick, value));
        Ok(())
    }

    /// The value at `tick`, found by binary search.
    pub fn at_tick(&self, tick: u32) -> (r: Option<u8>)
        requires
            self.wf(),
        ensures
            r == value_at(self@, tick),
    {
        let mut lo: usize = 0;
        let mut hi: usize = self.values.len();
        while lo < hi
            invariant
                lo <= hi <= self.values.len(),
                self.wf(),
                forall|i: int| 0 <= i < lo ==> (#[trigger] self@[i]).0 <= tick,
                forall|i: int| hi <= i < self@.len() ==> (#[trigger] self@[i]).0 > tick,
            decreases hi - lo,
        {
            let mid = lo + (hi - lo) / 2;
            if self.values[mid].0 <= tick {
                lo = mid + 1;
            } else {
                hi = mid;
            }
        }
        proof {
            lemma_value_at_split(self@, tick, lo as int);
        }
        if lo == 0 {
            None
        } else {
            Some(self.values[lo - 1].1)
        }
    }
}


/// The model of a memory: the history of every address written so far.
pub type Histories = Map<u64, Seq<(u32, u8)>>;

/// Every history of the model has increasing ticks.
pub open spec fn histories_wf(m: Histories) -> bool {
    forall|a: u64| m.contains_key(a) ==> ticks_increasing(#[trigger] m[a])
}

/// The history of `addr`; empty for an address never written, and for one
/// beyond the address space.
pub open spec fn history(m: Histories, addr: int) -> Seq<(u32, u8)> {
    if 0 <= addr <= u64::MAX && m.contains_key(addr as u64) {
        m[addr as u64]
    } else {
        Seq::empty()
    }
}

/// The `width` bytes seen at `tick` from `addr` upwards, if each of them is set.
pub open spec fn bytes_at(m: Histories, tick: u32, addr: int, width: nat) -> Option<Seq<u8>>
    decreases width,
{
    if width == 0 {
        Some(Seq::empty())
    } else {
        match (
            bytes_at(m, tick, addr, (width - 1) as nat),
            value_at(history(m, addr + width - 1), tick),
        ) {
            (Some(front), Some(b)) => Some(front.push(b)),
            _ => None,
        }
    }
}

/// The number that `bytes` spell, most significant byte first.
pub open spec fn be_value(bytes: Seq<u8>) -> nat
    decreases bytes.len(),
{
    if bytes.len() == 0 {
        0
    } else {
        be_value(bytes.drop_last()) * 256 + bytes.last() as nat
    }
}

/// The `width` low bytes of `value`, most significant byte first.
pub open spec fn be_bytes(value: nat, width: nat) -> Seq<u8>
    decreases width,
{
    if width == 0 {
        Seq::empty()
    } else {
        be_bytes(value / 256, (width - 1) as nat).push((value % 256) as u8)
    }
}

/// `256` to the power of `width`: the number of values that `width` bytes hold.
pub open spec fn span(width: nat) -> nat
    decreases width,
{
    if width == 0 {
        1
    } else {
        256 * span((width - 1) as nat)
    }
}

/// What a load of `width` bytes at `addr` sees at `tick`: the big-endian value
/// of the bytes, or nothing if any of them was not yet written.
pub open spec fn load(m: Histories, tick: u32, addr: int, width: nat) -> Option<nat> {
    match bytes_at(m, tick, addr, width) {
        Some(bytes) => Some(be_value(bytes)),
        None => None,
    }
}

/// How many of the leading bytes of a `width`-byte write at `addr` are
/// accepted before the first one that would go back in time.
pub open spec fn accepted_prefix(m: Histories, tick: u32, addr: int, width: nat) -> nat
    decreases width,
{
    if width == 0 || !accepts(history(m, addr), tick) {
        0
    } else {
        1 + accepted_prefix(m, tick, addr + 1, (width - 1) as nat)
    }
}

/// The model after the first `count` of `bytes` were written at `tick` from
/// `addr` upwards.
pub open spec fn written(m: Histories, tick: u32, addr: int, bytes: Seq<u8>, count: nat) -> Histories {
    Map::new(
        |a: u64| m.contains_key(a) || addr <= a < addr + count,
        |a: u64|
            if addr <= a < addr + count {
                record(history(m, a as int), tick, bytes[a - addr])
            } else {
                m[a]
            },
    )
}

/// The model after a store of the `width` low bytes of `value`: the bytes
/// are written in address order up to the first rejected one.
pub open spec fn stored(m: Histories, tick: u32, addr: int, value: nat, width: nat) -> Histories {
    written(m, tick, addr, be_bytes(value, width), accepted_prefix(m, tick, addr, width))
}

/// A write that was refused because its tick lies before the last
/// version of the byte at `address`.
#[derive(Debug, Clone, Copy, PartialEq, Eq, Structural)]
pub struct OutOfOrderWrite {
    pub tick: u32,
    pub address: u64,
}

/// The outcome of a store: success if every byte was accepted, else the
/// first address that rejected the tick.
pub open spec fn store_outcome(m: Histories, tick: u32, addr: int, width: nat) -> Result<
    (),
    OutOfOrderWrite,
> {
    let k = accepted_prefix(m, tick, addr, width);
    if k == width {
        Ok(())
    } else {
        Err(OutOfOrderWrite { tick, address: (addr + k) as u64 })
    }
}

/// The number of values of the widths that loads and stores have.
pub proof fn lemma_span_values()
    ensures
        span(0) == 1,
        span(1) == 0x100,
        span(2) == 0x1_0000,
        span(4) == 0x1_0000_0000,
        span(7) == 0x100_0000_0000_0000,
        span(8) == 0x1_0000_0000_0000_0000,
{
    reveal_with_fuel(span, 10);
}

/// The value of `width` bytes lies below `span(width)`.
pub proof fn lemma_be_value_bound(bytes: Seq<u8>)
    ensures
        be_value(bytes) < span(bytes.len()),
    decreases bytes.len(),
{
    if bytes.len() > 0 {
        lemma_be_value_bound(bytes.drop_last());
    }
}

/// A value of `width` bytes has `width` bytes.
pub proof fn lemma_be_bytes_len(value: nat, width: nat)
    ensures
        be_bytes(value, width).len() == width,
    decreases width,
{
    if width > 0 {
        lemma_be_bytes_len(value / 256, (width - 1) as nat);
    }
}

/// Splitting a value into bytes and reading them back gives the value,
/// as far as it fits the width.
pub proof fn lemma_be_round_trip(value: nat, width: nat)
    ensures
        be_value(be_bytes(value, width)) == value % span(width),
    decreases width,
{
    if width > 0 {
        let rest = (width - 1) as nat;
        let b = be_bytes(value, width);
        lemma_be_round_trip(value / 256, rest);
        assert(b.drop_last() =~= be_bytes(value / 256, rest));
        assert(b.last() == (value % 256) as u8);
        let s = span(rest);
        assert(s > 0) by {
            lemma_span_positive(rest);
        }
        vstd::arithmetic::div_mod::lemma_fundamental_div_mod(value as int, 256);
        vstd::arithmetic::div_mod::lemma_breakdown(value as int, 256, s as int);
        assert(256 * s == span(width));
        assert(value % (256 * s) == 256 * ((value / 256) % s) + value % 256);
    } else {
        assert(value % 1 == 0);
    }
}

/// Every width holds at least one value.
pub proof fn lemma_span_positive(width: nat)
    ensures
        span(width) > 0,
    decreases width,
{
    if width > 0 {
        lemma_span_positive((width - 1) as nat);
    }
}


/// A greater width holds no fewer values.
pub proof fn lemma_span_monotonic(a: nat, b: nat)
    requires
        a <= b,
    ensures
        span(a) <= span(b),
    decreases b,
{
    if a < b {
        lemma_span_monotonic(a, (b - 1) as nat);
    }
}

/// Once a byte is unset, every wider load over it is unset too.
pub proof fn lemma_bytes_at_unset(m: Histories, tick: u32, addr: int, short: nat, width: nat)
    requires
        short <= width,
        bytes_at(m, tick, addr, short) is None,
    ensures
        bytes_at(m, tick, addr, width) is None,
    decreases width,
{
    if short < width {
        lemma_bytes_at_unset(m, tick, addr, short, (width - 1) as nat);
    }
}

/// The bytes seen by a load are as many as asked for, each the value of its
/// own address.
pub proof fn lemma_bytes_at_index(m: Histories, tick: u32, addr: int, width: nat)
    ensures
        match bytes_at(m, tick, addr, width) {
            Some(bytes) => bytes.len() == width && forall|a: int|
                addr <= a < addr + width ==> value_at(#[trigger] history(m, a), tick) == Some(
                    bytes[a - addr],
                ),
            None => exists|a: int|
                addr <= a < addr + width && value_at(#[trigger] history(m, a), tick) is None,
        },
    decreases width,
{
    if width > 0 {
        lemma_bytes_at_index(m, tick, addr, (width - 1) as nat);
        let top = addr + width - 1;
        match bytes_at(m, tick, addr, (width - 1) as nat) {
            Some(front) => {
                if value_at(history(m, top), tick) is None {
                    assert(addr <= top < addr + width && value_at(history(m, top), tick) is None);
                }
            },
            None => {
                let a = choose|a: int|
                    addr <= a < addr + width - 1 && value_at(#[trigger] history(m, a), tick) is None;
                assert(addr <= a < addr + width && value_at(history(m, a), tick) is None);
            },
        }
    }
}

/// The leading accepted bytes are accepted, and the byte after them, if it
/// is part of the write, is rejected.
pub proof fn lemma_accepted_prefix(m: Histories, tick: u32, addr: int, width: nat)
    ensures
        accepted_prefix(m, tick, addr, width) <= width,
        forall|a: int|
            addr <= a < addr + accepted_prefix(m, tick, addr, width) ==> accepts(
                #[trigger] history(m, a),
                tick,
            ),
        accepted_prefix(m, tick, addr, width) < width ==> !accepts(
            history(m, addr + accepted_prefix(m, tick, addr, width)),
            tick,
        ),
    decreases width,
{
    if width == 0 || !accepts(history(m, addr), tick) {
    } else {
        lemma_accepted_prefix(m, tick, addr + 1, (width - 1) as nat);
    }
}

/// If the first `count` bytes are accepted, the prefix is `count` plus the
/// prefix of what remains.
pub proof fn lemma_accepted_prefix_split(
    m: Histories,
    tick: u32,
    addr: int,
    width: nat,
    count: nat,
)
    requires
        count <= width,
        forall|a: int| addr <= a < addr + count ==> accepts(#[trigger] history(m, a), tick),
    ensures
        accepted_prefix(m, tick, addr, width) == count + accepted_prefix(
            m,
            tick,
            addr + count,
            (width - count) as nat,
        ),
    decreases count,
{
    if count > 0 {
        assert(accepts(history(m, addr), tick));
        lemma_accepted_prefix_split(m, tick, addr + 1, (width - 1) as nat, (count - 1) as nat);
    }
}

/// A memory that remembers, for every byte, each value it held and since when.
pub struct HistMem {
    cells: HashMap<u64, MCell>,
}

impl View for HistMem {
    type V = Histories;

    closed spec fn view(&self) -> Histories {
        Map::new(|a: u64| self.cells@.contains_key(a), |a: u64| self.cells@[a]@)
    }
}

impl HistMem {
    /// Every history has increasing ticks.
    pub open spec fn wf(&self) -> bool {
        histories_wf(self@)
    }

    /// An empty memory: no byte is set at any tick.
    pub fn new() -> (mem: Self)
        ensures
            mem@ == Map::<u64, Seq<(u32, u8)>>::empty(),
            mem.wf(),
    {
        let mem = Self { cells: HashMap::new() };
        assert(mem@ =~= Map::<u64, Seq<(u32, u8)>>::empty());
        mem
    }

    /// The byte at `adr` as it was at `tick`.
    pub fn load8(&self, tick: u32, adr: u64) -> (r: Option<u8>)
        requires
            self.wf(),
        ensures
            r == value_at(history(self@, adr as int), tick),
            r is None <==> load(self@, tick, adr as int, 1) is None,
            r matches Some(v) ==> load(self@, tick, adr as int, 1) == Some(v as nat),
    {
        proof {
            reveal_with_fuel(bytes_at, 2);
            reveal_with_fuel(be_value, 2);
            let b = value_at(history(self@, adr as int), tick);
            if b is Some {
                assert(Seq::<u8>::empty().push(b->0).drop_last() =~= Seq::<u8>::empty());
            }
        }
        match self.cells.get(&adr) {
            Some(cell) => {
                assert(self@.contains_key(adr) && self@[adr] == cell@);
                cell.at_tick(tick)
            },
            None => None,
        }
    }

    /// Big-endian load of `width` bytes.
    fn load_be(&self, tick: u32, adr: u64, width: u8) -> (r: Option<u64>)
        requires
            self.wf(),
            1 <= width <= 8,
        ensures
            r is None <==> load(self@, tick, adr as int, width as nat) is None,
            r matches Some(v) ==> load(self@, tick, adr as int, width as nat) == Some(v as nat),
    {
        let mut acc: u64 = 0;
        let mut i: u8 = 0;
        while i < width
            invariant
                i <= width <= 8,
                self.wf(),
                bytes_at(self@, tick, adr as int, i as nat) matches Some(b) && be_value(b) == acc,
            decreases width - i,
        {
            let ghost seen = bytes_at(self@, tick, adr as int, i as nat)->0;
            let a = match adr.checked_add(i as u64) {
                Some(a) => a,
                None => {
                    proof {
                        assert(bytes_at(self@, tick, adr as int, (i + 1) as nat) is None);
                        lemma_bytes_at_unset(
                            self@,
                            tick,
                            adr as int,
                            (i + 1) as nat,
                            width as nat,
                        );
                    }
                    return None;
                },
            };
            let b = match self.load8(tick, a) {
                Some(b) => b,
                None => {
                    proof {
                        assert(bytes_at(self@, tick, adr as int, (i + 1) as nat) is None);
                        lemma_bytes_at_unset(
                            self@,
                            tick,
                            adr as int,
                            (i + 1) as nat,
                            width as nat,
                        );
                    }
                    return None;
                },
            };
            proof {
                lemma_bytes_at_index(self@, tick, adr as int, i as nat);
                lemma_be_value_bound(seen);
                lemma_span_monotonic(i as nat, 7);
                lemma_span_values();
                assert(seen.push(b).drop_last() =~= seen);
                assert(bytes_at(self@, tick, adr as int, (i + 1) as nat) == Some(seen.push(b)));
            }
            acc = acc * 256 + b as u64;
            i += 1;
        }
        Some(acc)
    }

    /// The two bytes from `adr` as they were at `tick`, big-endian.
    pub fn load16(&self, tick: u32, adr: u64) -> (r: Option<u16>)
        requires
            self.wf(),
        ensures
            r is None <==> load(self@, tick, adr as int, 2) is None,
            r matches Some(v) ==> load(self@, tick, adr as int, 2) == Some(v as nat),
    {
        proof {
            lemma_load_bound(self@, tick, adr as int, 2);
            lemma_span_values();
        }
        match self.load_be(tick, adr, 2) {
            Some(v) => Some(v as u16),
            None => None,
        }
    }

    /// The four bytes from `adr` as they were at `tick`, big-endian.
    pub fn load32(&self, tick: u32, adr: u64) -> (r: Option<u32>)
        requires
            self.wf(),
        ensures
            r is None <==> load(self@, tick, adr as int, 4) is None,
            r matches Some(v) ==> load(self@, tick, adr as int, 4) == Some(v as nat),
    {
        proof {
            lemma_load_bound(self@, tick, adr as int, 4);
            lemma_span_values();
        }
        match self.load_be(tick, adr, 4) {
            Some(v) => Some(v as u32),
            None => None,
        }
    }

    /// The eight bytes from `adr` as they were at `tick`, big-endian.
    pub fn load64(&self, tick: u32, adr: u64) -> (r: Option<u64>)
        requires
            self.wf(),
        ensures
            r is None <==> load(self@, tick, adr as int, 8) is None,
            r matches Some(v) ==> load(self@, tick, adr as int, 8) == Some(v as nat),
    {
        self.load_be(tick, adr, 8)
    }

    /// Writes one byte; the model changes as `record` says.
    fn store_byte(&mut self, tick: u32, adr: u64, val: u8) -> (ok: bool)
        requires
            old(self).wf(),
        ensures
            final(self).wf(),
            ok == accepts(history(old(self)@, adr as int), tick),
            ok ==> final(self)@ == old(self)@.insert(
                adr,
                record(history(old(self)@, adr as int), tick, val),
            ),
            !ok ==> final(self)@ == old(self)@,
    {
        let ghost before = self@;
        let mut cell = match self.cells.remove(&adr) {
            Some(cell) => cell,
            None => MCell::new(),
        };
        assert(cell@ == history(before, adr as int));
        assert(cell.wf());
        let r = cell.add_tick(tick, val);
        let ghost after = cell@;
        self.cells.insert(adr, cell);
        proof {
            if r is Ok {
                assert(self@ =~= before.insert(adr, after));
            } else {
                assert(after.len() > 0);
                assert(self@ =~= before);
            }
            assert forall|a: u64| self@.contains_key(a) implies ticks_increasing(
                #[trigger] self@[a],
            ) by {
                if a != adr {
                    assert(before.contains_key(a) && self@[a] == before[a]);
                }
            }
        }
        r.is_ok()
    }

    /// Big-endian store of the `width` low bytes of `value`.
    fn store_be(&mut self, tick: u32, adr: u64, value: u64, width: u8) -> (r: Result<
        (),
        OutOfOrderWrite,
    >)
        requires
            old(self).wf(),
            1 <= width <= 8,
            adr + width <= u64::MAX + 1,
        ensures
            final(self).wf(),
            final(self)@ == stored(old(self)@, tick, adr as int, value as nat, width as nat),
            r == store_outcome(old(self)@, tick, adr as int, width as nat),
    {
        let ghost before = self@;
        let ghost all = be_bytes(value as nat, width as nat);
        let mut bytes = [0u8;8];
        let mut rest = value;
        let mut k = width;
        while k > 0
            invariant
                k <= width <= 8,
                all =~= be_bytes(rest as nat, k as nat) + bytes@.subrange(k as int, width as int),
            decreases k,
        {
            let ghost tail = bytes@.subrange(k as int, width as int);
            k -= 1;
            bytes[k as usize] = (rest % 256) as u8;
            proof {
                assert(bytes@.subrange(k as int, width as int) =~= seq![(rest % 256) as u8] + tail);
            }
            rest = rest / 256;
        }
        proof {
            lemma_be_bytes_len(value as nat, width as nat);
            assert(all =~= bytes@.subrange(0, width as int));
        }
        let mut i: u8 = 0;
        while i < width
            invariant
                i <= width <= 8,
                adr + width <= u64::MAX + 1,
                self.wf(),
                before == old(self)@,
                all == be_bytes(value as nat, width as nat),
                all.len() == width,
                all =~= bytes@.subrange(0, width as int),
                forall|a: int| adr <= a < adr + i ==> accepts(#[trigger] history(before, a), tick),
                self@ =~= written(before, tick, adr as int, all, i as nat),
            decreases width - i,
        {
            let a = adr + i as u64;
            let ghost current = self@;
            assert(history(current, a as int) == history(before, adr + i));
            let ok = self.store_byte(tick, a, bytes[i as usize]);
            proof {
                lemma_accepted_prefix_split(before, tick, adr as int, width as nat, i as nat);
            }
            if !ok {
                assert(accepted_prefix(before, tick, adr as int, width as nat) == i);
                return Err(OutOfOrderWrite { tick, address: a });
            }
            proof {
                assert(bytes[i as int] == all[i as int]);
                assert(self@ =~= written(before, tick, adr as int, all, (i + 1) as nat));
            }
            i += 1;
        }
        proof {
            lemma_accepted_prefix_split(before, tick, adr as int, width as nat, width as nat);
        }
        Ok(())
    }

    /// Writes `val` to the byte at `adr` at `tick`.
    ///
    /// Fails, changing nothing, if the byte already has a younger version.
    pub fn store8(&mut self, tick: u32, adr: u64, val: u8) -> (r: Result<(), OutOfOrderWrite>)
        requires
            old(self).wf(),
        ensures
            final(self).wf(),
            final(self)@ == stored(old(self)@, tick, adr as int, val as nat, 1),
            r == store_outcome(old(self)@, tick, adr as int, 1),
    {
        self.store_be(tick, adr, val as u64, 1)
    }

    /// Writes the two bytes of `val` from `adr` upwards at `tick`, big-endian.
    ///
    /// The bytes are written in address order; the first one that already
    /// has a younger version stops the store and is reported.
    pub fn store16(&mut self, tick: u32, adr: u64, val: u16) -> (r: Result<(), OutOfOrderWrite>)
        requires
            old(self).wf(),
            adr + 2 <= u64::MAX + 1,
        ensures
            final(self).wf(),
            final(self)@ == stored(old(self)@, tick, adr as int, val as nat, 2),
            r == store_outcome(old(self)@, tick, adr as int, 2),
    {
        self.store_be(tick, adr, val as u64, 2)
    }

    /// Writes the four bytes of `val` from `adr` upwards at `tick`, big-endian.
    ///
    /// The bytes are written in address order; the first one that already
    /// has a younger version stops the store and is reported.
    pub fn store32(&mut self, tick: u32, adr: u64, val: u32) -> (r: Result<(), OutOfOrderWrite>)
        requires
            old(self).wf(),
            adr + 4 <= u64::MAX + 1,
        ensures
            final(self).wf(),
            final(self)@ == stored(old(self)@, tick, adr as int, val as nat, 4),
            r == store_outcome(old(self)@, tick, adr as int, 4),
    {
        self.store_be(tick, adr, val as u64, 4)
    }

    /// Writes the eight bytes of `val` from `adr` upwards at `tick`, big-endian.
    ///
    /// The bytes are written in address order; the first one that already
    /// has a younger version stops the store and is reported.
    pub fn store64(&mut self, tick: u32, adr: u64, val: u64) -> (r: Result<(), OutOfOrderWrite>)
        requires
            old(self).wf(),
            adr + 8 <= u64::MAX + 1,
        ensures
            final(self).wf(),
            final(self)@ == stored(old(self)@, tick, adr as int, val as nat, 8),
            r == store_outcome(old(self)@, tick, adr as int, 8),
    {
        self.store_be(tick, adr, val, 8)
    }
}

/// What a load sees lies below `span(width)`.
pub proof fn lemma_load_bound(m: Histories, tick: u32, addr: int, width: nat)
    ensures
        load(m, tick, addr, width) matches Some(v) ==> v < span(width),
{
    lemma_bytes_at_index(m, tick, addr, width);
    if let Some(bytes) = bytes_at(m, tick, addr, width) {
        lemma_be_value_bound(bytes);
    }
}

} // verus!
