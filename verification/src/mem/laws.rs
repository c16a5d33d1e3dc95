//! What holds of every memory history: a store is seen by later loads, never
//! changes the past, leaves other addresses alone, and is refused when it
//! would go back in time.

use super::byte::{
    accepted_prefix, accepts, be_bytes, be_value, bytes_at, histories_wf, history, lemma_accepted_prefix,
    lemma_be_bytes_len, lemma_be_round_trip, lemma_bytes_at_index, lemma_record_increasing,
    lemma_record_keeps_past, lemma_record_then_value_at, load, record, span, store_outcome,
    stored, ticks_increasing, value_at, Histories,
};
use vstd::prelude::*;

verus! {

/// A load sees exactly `bytes` if every byte address shows the matching byte.
pub proof fn lemma_bytes_at_from_index(
    m: Histories,
    tick: u32,
    addr: int,
    width: nat,
    bytes: Seq<u8>,
)
    requires
        bytes.len() == width,
        forall|a: int|
            addr <= a < addr + width ==> value_at(#[trigger] history(m, a), tick) == Some(
                bytes[a - addr],
            ),
    ensures
        bytes_at(m, tick, addr, width) == Some(bytes),
{
    lemma_bytes_at_index(m, tick, addr, width);
    match bytes_at(m, tick, addr, width) {
        Some(seen) => {
            assert forall|i: int| 0 <= i < width implies seen[i] == bytes[i] by {
                assert(value_at(history(m, addr + i), tick) == Some(seen[addr + i - addr]));
            }
            assert(seen =~= bytes);
        },
        None => {},
    }
}

/// Two models that agree on the histories of a range show the same bytes there.
pub proof fn lemma_bytes_at_agree(
    m1: Histories,
    m2: Histories,
    t1: u32,
    t2: u32,
    addr: int,
    width: nat,
)
    requires
        forall|a: int|
            addr <= a < addr + width ==> value_at(#[trigger] history(m1, a), t1) == value_at(
                history(m2, a),
                t2,
            ),
    ensures
        bytes_at(m1, t1, addr, width) == bytes_at(m2, t2, addr, width),
    decreases width,
{
    if width > 0 {
        lemma_bytes_at_agree(m1, m2, t1, t2, addr, (width - 1) as nat);
        assert(value_at(history(m1, addr + width - 1), t1) == value_at(
            history(m2, addr + width - 1),
            t2,
        ));
    }
}

/// The history of an address after a store: recorded if the address is one of the
/// accepted bytes, unchanged otherwise.
pub proof fn lemma_stored_history(
    m: Histories,
    tick: u32,
    addr: int,
    value: nat,
    width: nat,
    a: int,
)
    requires
        0 <= addr,
        addr + width <= u64::MAX + 1,
    ensures
        history(stored(m, tick, addr, value, width), a) == (if addr <= a < addr + accepted_prefix(
            m,
            tick,
            addr,
            width,
        ) {
            record(history(m, a), tick, be_bytes(value, width)[a - addr])
        } else {
            history(m, a)
        }),
{
    lemma_accepted_prefix(m, tick, addr, width);
}

/// Round trip: right after a store that was accepted, a load of the same
/// width at the same address, at the store's tick or any later one, gives
/// back the value stored.
pub proof fn lemma_load_after_store(
    m: Histories,
    tick: u32,
    addr: u64,
    value: nat,
    width: nat,
    later: u32,
)
    requires
        addr + width <= u64::MAX + 1,
        value < span(width),
        store_outcome(m, tick, addr as int, width) is Ok,
        tick <= later,
    ensures
        load(stored(m, tick, addr as int, value, width), later, addr as int, width) == Some(value),
{
    let after = stored(m, tick, addr as int, value, width);
    let bytes = be_bytes(value, width);
    lemma_be_bytes_len(value, width);
    lemma_accepted_prefix(m, tick, addr as int, width);
    assert forall|a: int| addr <= a < addr + width implies value_at(
        #[trigger] history(after, a),
        later,
    ) == Some(bytes[a - addr]) by {
        lemma_stored_history(m, tick, addr as int, value, width, a);
        assert(accepts(history(m, a), tick));
        lemma_record_then_value_at(history(m, a), tick, bytes[a - addr], later);
    }
    lemma_bytes_at_from_index(after, later, addr as int, width, bytes);
    lemma_be_round_trip(value, width);
    vstd::arithmetic::div_mod::lemma_small_mod(value, span(width));
}

/// History is kept: a store at `tick`, accepted or not, changes no load at an
/// earlier tick, whatever its address and width.
pub proof fn lemma_store_keeps_past(
    m: Histories,
    tick: u32,
    addr: u64,
    value: nat,
    width: nat,
    earlier: u32,
    at: int,
    span_read: nat,
)
    requires
        addr + width <= u64::MAX + 1,
        earlier < tick,
    ensures
        load(stored(m, tick, addr as int, value, width), earlier, at, span_read) == load(
            m,
            earlier,
            at,
            span_read,
        ),
{
    let after = stored(m, tick, addr as int, value, width);
    assert forall|a: int| at <= a < at + span_read implies value_at(
        #[trigger] history(after, a),
        earlier,
    ) == value_at(history(m, a), earlier) by {
        lemma_stored_history(m, tick, addr as int, value, width, a);
        if history(after, a) != history(m, a) {
            lemma_record_keeps_past(
                history(m, a),
                tick,
                be_bytes(value, width)[a - addr],
                earlier,
            );
        }
    }
    lemma_bytes_at_agree(after, m, earlier, earlier, at, span_read);
}

/// A store changes no load of a range that it does not overlap, at any tick.
pub proof fn lemma_store_keeps_others(
    m: Histories,
    tick: u32,
    addr: u64,
    value: nat,
    width: nat,
    when: u32,
    at: int,
    span_read: nat,
)
    requires
        addr + width <= u64::MAX + 1,
        at + span_read <= addr || addr + width <= at,
    ensures
        load(stored(m, tick, addr as int, value, width), when, at, span_read) == load(
            m,
            when,
            at,
            span_read,
        ),
{
    let after = stored(m, tick, addr as int, value, width);
    lemma_accepted_prefix(m, tick, addr as int, width);
    assert forall|a: int| at <= a < at + span_read implies value_at(
        #[trigger] history(after, a),
        when,
    ) == value_at(history(m, a), when) by {
        lemma_stored_history(m, tick, addr as int, value, width, a);
    }
    lemma_bytes_at_agree(after, m, when, when, at, span_read);
}

/// Out-of-order rejection: a store succeeds exactly if none of its bytes
/// has a version younger than the store's tick; otherwise it reports the
/// lowest such address.
pub proof fn lemma_store_outcome(m: Histories, tick: u32, addr: u64, width: nat)
    requires
        addr + width <= u64::MAX + 1,
    ensures
        store_outcome(m, tick, addr as int, width) is Ok <==> forall|a: int|
            addr <= a < addr + width ==> accepts(#[trigger] history(m, a), tick),
        store_outcome(m, tick, addr as int, width) matches Err(e) ==> {
            &&& e.tick == tick
            &&& addr <= e.address < addr + width
            &&& history(m, e.address as int).len() > 0
            &&& tick < history(m, e.address as int).last().0
            &&& forall|a: int| addr <= a < e.address ==> accepts(#[trigger] history(m, a), tick)
        },
{
    lemma_accepted_prefix(m, tick, addr as int, width);
    let k = accepted_prefix(m, tick, addr as int, width);
    if k < width {
        assert(!accepts(history(m, addr + k), tick));
    }
}

/// After an accepted store, a store of the same bytes at the same or a
/// later tick is accepted too.
pub proof fn lemma_later_store_accepted(
    m: Histories,
    tick: u32,
    addr: u64,
    value: nat,
    width: nat,
    later: u32,
)
    requires
        addr + width <= u64::MAX + 1,
        store_outcome(m, tick, addr as int, width) is Ok,
        tick <= later,
    ensures
        store_outcome(stored(m, tick, addr as int, value, width), later, addr as int, width) is Ok,
{
    let after = stored(m, tick, addr as int, value, width);
    lemma_accepted_prefix(m, tick, addr as int, width);
    lemma_be_bytes_len(value, width);
    assert forall|a: int| addr <= a < addr + width implies accepts(
        #[trigger] history(after, a),
        later,
    ) by {
        lemma_stored_history(m, tick, addr as int, value, width, a);
        assert(accepts(history(m, a), tick));
        let h = record(history(m, a), tick, be_bytes(value, width)[a - addr]);
        assert(h.last().0 == tick);
    }
    lemma_store_outcome(after, later, addr, width);
}

/// History: of two stores to the same place, the second at a later tick, a
/// load at a tick from the first store up to before the second sees the
/// first value, and a load from the second store on sees the second.
pub proof fn lemma_history(
    m: Histories,
    addr: u64,
    width: nat,
    first: u32,
    one: nat,
    second: u32,
    other: nat,
    between: u32,
    after: u32,
)
    requires
        addr + width <= u64::MAX + 1,
        one < span(width),
        other < span(width),
        store_outcome(m, first, addr as int, width) is Ok,
        first <= between < second <= after,
    ensures
        store_outcome(stored(m, first, addr as int, one, width), second, addr as int, width) is Ok,
        load(
            stored(stored(m, first, addr as int, one, width), second, addr as int, other, width),
            between,
            addr as int,
            width,
        ) == Some(one),
        load(
            stored(stored(m, first, addr as int, one, width), second, addr as int, other, width),
            after,
            addr as int,
            width,
        ) == Some(other),
{
    let m1 = stored(m, first, addr as int, one, width);
    lemma_later_store_accepted(m, first, addr, one, width, second);
    lemma_load_after_store(m, first, addr, one, width, between);
    lemma_store_keeps_past(m1, second, addr, other, width, between, addr as int, width);
    lemma_load_after_store(m1, second, addr, other, width, after);
}

/// The bytes of a load are those of its lower part followed by those of
/// its upper part.
pub proof fn lemma_bytes_at_split(m: Histories, tick: u32, addr: int, low: nat, high: nat)
    ensures
        bytes_at(m, tick, addr, low + high) == (match (
            bytes_at(m, tick, addr, low),
            bytes_at(m, tick, addr + low, high),
        ) {
            (Some(front), Some(back)) => Some(front + back),
            _ => None,
        }),
    decreases high,
{
    if high == 0 {
        if let Some(front) = bytes_at(m, tick, addr, low) {
            assert(front + Seq::<u8>::empty() =~= front);
        }
    } else {
        let shorter = (high - 1) as nat;
        lemma_bytes_at_split(m, tick, addr, low, shorter);
        assert(low + high - 1 == low + shorter);
        match (bytes_at(m, tick, addr, low), bytes_at(m, tick, addr + low, shorter)) {
            (Some(front), Some(back)) => {
                if let Some(b) = value_at(history(m, addr + low + high - 1), tick) {
                    assert((front + back).push(b) =~= front + back.push(b));
                }
            },
            _ => {},
        }
    }
}

/// The value of some bytes is that of the front ones, moved up by the
/// width of the back ones, plus that of the back ones.
pub proof fn lemma_be_value_concat(front: Seq<u8>, back: Seq<u8>)
    ensures
        be_value(front + back) == be_value(front) * span(back.len()) + be_value(back),
    decreases back.len(),
{
    if back.len() == 0 {
        assert(front + back =~= front);
        assert(be_value(front) * 1 == be_value(front)) by (nonlinear_arith);
    } else {
        lemma_be_value_concat(front, back.drop_last());
        assert((front + back).drop_last() =~= front + back.drop_last());
        assert((front + back).last() == back.last());
        let f = be_value(front);
        let b = be_value(back.drop_last());
        let s = span((back.len() - 1) as nat);
        let l = back.last() as nat;
        assert((f * s + b) * 256 + l == f * (256 * s) + (b * 256 + l)) by (nonlinear_arith);
    }
}

/// Big-endian: a load is its lower-addressed part as the more significant
/// digits, followed by its higher-addressed part; if either part is unset,
/// so is the whole.
pub proof fn lemma_load_split(m: Histories, tick: u32, addr: int, low: nat, high: nat)
    ensures
        load(m, tick, addr, low + high) == (match (
            load(m, tick, addr, low),
            load(m, tick, addr + low, high),
        ) {
            (Some(upper), Some(lower)) => Some(upper * span(high) + lower),
            _ => None,
        }),
{
    lemma_bytes_at_split(m, tick, addr, low, high);
    match (bytes_at(m, tick, addr, low), bytes_at(m, tick, addr + low, high)) {
        (Some(front), Some(back)) => {
            lemma_be_value_concat(front, back);
            lemma_bytes_at_index(m, tick, addr + low, high);
        },
        _ => {},
    }
}

/// A store keeps every history in increasing tick order.
pub proof fn lemma_stored_wf(m: Histories, tick: u32, addr: u64, value: nat, width: nat)
    requires
        histories_wf(m),
        addr + width <= u64::MAX + 1,
    ensures
        histories_wf(stored(m, tick, addr as int, value, width)),
{
    let after = stored(m, tick, addr as int, value, width);
    assert forall|a: u64| after.contains_key(a) implies ticks_increasing(#[trigger] after[a]) by {
        lemma_stored_history(m, tick, addr as int, value, width, a as int);
        if m.contains_key(a) {
            assert(ticks_increasing(m[a]));
        }
        lemma_record_increasing(
            history(m, a as int),
            tick,
            be_bytes(value, width)[a - addr],
        );
    }
}

} // verus!
