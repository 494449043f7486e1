//! The guarantees the store and the recorder give across calls, stated
//! over their abstract models and proved once and for all.

use crate::handlers::{byte_len, get_effect, set_effect};
use crate::metrics::{sat_add64, spec_add_bytes, spec_sample, Counter, Flow, Kind, Op, RecorderModel};
use vstd::prelude::*;

verus! {

/// Write-then-read consistency: after `k` is bound to `v`, a lookup of
/// `k` yields exactly `v`, and every other binding is untouched — so
/// every later lookup yields `v` too, until the next write to `k`.
pub proof fn lemma_write_then_read(m: Map<Seq<char>, Seq<char>>, k: Seq<char>, v: Seq<char>)
    ensures
        m.insert(k, v).contains_key(k),
        m.insert(k, v)[k] == v,
        forall|k2: Seq<char>|
            k2 != k ==> #[trigger] m.insert(k, v).contains_key(k2) == m.contains_key(k2),
        forall|k2: Seq<char>|
            k2 != k && m.contains_key(k2) ==> #[trigger] m.insert(k, v)[k2] == m[k2],
{
}

/// Last write wins: binding `k` to `v1` and then to `v2` leaves exactly
/// the state of binding it to `v2` alone — one binding, no duplicate.
pub proof fn lemma_last_write_wins(
    m: Map<Seq<char>, Seq<char>>,
    k: Seq<char>,
    v1: Seq<char>,
    v2: Seq<char>,
)
    ensures
        m.insert(k, v1).insert(k, v2) == m.insert(k, v2),
{
    assert(m.insert(k, v1).insert(k, v2) =~= m.insert(k, v2));
}

/// The mapping after the writes `ps`, applied first to last.
pub open spec fn apply_sets(
    m: Map<Seq<char>, Seq<char>>,
    ps: Seq<(Seq<char>, Seq<char>)>,
) -> Map<Seq<char>, Seq<char>>
    decreases ps.len(),
{
    if ps.len() == 0 {
        m
    } else {
        apply_sets(m.insert(ps[0].0, ps[0].1), ps.drop_first())
    }
}

/// No two of the writes touch the same key.
pub open spec fn distinct_write_keys(ps: Seq<(Seq<char>, Seq<char>)>) -> bool {
    forall|i: int, j: int| 0 <= i < j < ps.len() ==> (#[trigger] ps[i]).0 != (#[trigger] ps[j]).0
}

/// Writes leave every key they do not touch alone.
proof fn lemma_apply_sets_untouched(
    m: Map<Seq<char>, Seq<char>>,
    ps: Seq<(Seq<char>, Seq<char>)>,
    k: Seq<char>,
)
    requires
        forall|i: int| 0 <= i < ps.len() ==> (#[trigger] ps[i]).0 != k,
    ensures
        apply_sets(m, ps).contains_key(k) == m.contains_key(k),
        m.contains_key(k) ==> apply_sets(m, ps)[k] == m[k],
    decreases ps.len(),
{
    if ps.len() > 0 {
        let rest = ps.drop_first();
        assert(forall|i: int| 0 <= i < rest.len() ==> (#[trigger] rest[i]).0 == ps[i + 1].0);
        lemma_apply_sets_untouched(m.insert(ps[0].0, ps[0].1), rest, k);
    }
}

/// No lost update: after writes to pairwise-distinct keys — in this
/// order or, the keys being distinct, any other serialization of them —
/// every written key is bound to exactly the value written for it.
pub proof fn lemma_distinct_writes_persist(
    m: Map<Seq<char>, Seq<char>>,
    ps: Seq<(Seq<char>, Seq<char>)>,
)
    requires
        distinct_write_keys(ps),
    ensures
        forall|i: int|
            0 <= i < ps.len() ==> apply_sets(m, ps).contains_key((#[trigger] ps[i]).0)
                && apply_sets(m, ps)[ps[i].0] == ps[i].1,
    decreases ps.len(),
{
    if ps.len() > 0 {
        let m1 = m.insert(ps[0].0, ps[0].1);
        let rest = ps.drop_first();
        assert(forall|i: int| 0 <= i < rest.len() ==> #[trigger] rest[i] == ps[i + 1]);
        assert(distinct_write_keys(rest));
        lemma_distinct_writes_persist(m1, rest);
        assert(forall|i: int| 0 <= i < rest.len() ==> (#[trigger] rest[i]).0 != ps[0].0);
        lemma_apply_sets_untouched(m1, rest, ps[0].0);
        assert forall|i: int|
            0 <= i < ps.len() implies apply_sets(m, ps).contains_key((#[trigger] ps[i]).0)
            && apply_sets(m, ps)[ps[i].0] == ps[i].1 by {
            if i > 0 {
                assert(rest[i - 1] == ps[i]);
            }
        }
    }
}

/// A served lookup grows the read key-byte counter by exactly the key's
/// byte length, hit or miss — stated up to the counter's largest
/// representable value, at which it saturates instead of wrapping.
pub proof fn lemma_get_counts_key_bytes(
    rec: RecorderModel,
    m: Map<Seq<char>, Seq<char>>,
    key: Seq<char>,
)
    requires
        rec.valid(),
        rec.read_key_bytes + byte_len(key) <= u64::MAX as int,
    ensures
        get_effect(rec, m, key).read_key_bytes == rec.read_key_bytes + byte_len(key),
{
}

/// A served lookup grows the read value-byte counter by exactly the
/// found value's byte length on a hit — up to the saturation bound —
/// and leaves it unchanged on a miss.
pub proof fn lemma_get_counts_value_bytes(
    rec: RecorderModel,
    m: Map<Seq<char>, Seq<char>>,
    key: Seq<char>,
)
    requires
        rec.valid(),
        m.contains_key(key) ==> rec.read_value_bytes + byte_len(m[key]) <= u64::MAX as int,
    ensures
        m.contains_key(key) ==> get_effect(rec, m, key).read_value_bytes == rec.read_value_bytes
            + byte_len(m[key]),
        !m.contains_key(key) ==> get_effect(rec, m, key).read_value_bytes == rec.read_value_bytes,
{
}

/// A served write grows the write byte counters by exactly the key's
/// and the value's byte lengths, up to the saturation bound.
pub proof fn lemma_set_counts_bytes(rec: RecorderModel, key: Seq<char>, value: Seq<char>)
    requires
        rec.valid(),
        rec.write_key_bytes + byte_len(key) <= u64::MAX as int,
        rec.write_value_bytes + byte_len(value) <= u64::MAX as int,
    ensures
        set_effect(rec, key, value).write_key_bytes == rec.write_key_bytes + byte_len(key),
        set_effect(rec, key, value).write_value_bytes == rec.write_value_bytes + byte_len(value),
{
}

/// One recording: a byte count attributed to a flow and kind, or a
/// duration sample attributed to an operation.
pub enum Event {
    Bytes(Flow, Kind, u64),
    Sample(Op),
}

/// The recorder state after one recording.
pub open spec fn step(m: RecorderModel, e: Event) -> RecorderModel {
    match e {
        Event::Bytes(flow, kind, n) => spec_add_bytes(m, flow, kind, n as int),
        Event::Sample(op) => spec_sample(m, op),
    }
}

/// The recorder state after a sequence of recordings, first to last.
pub open spec fn run(m: RecorderModel, evs: Seq<Event>) -> RecorderModel
    decreases evs.len(),
{
    if evs.len() == 0 {
        m
    } else {
        run(step(m, evs[0]), evs.drop_first())
    }
}

/// What one recording adds to one accumulator: the byte count or the
/// one sample if the recording is attributed to it, nothing otherwise.
pub open spec fn contribution(e: Event, c: Counter) -> int {
    match (e, c) {
        (Event::Bytes(flow, kind, n), Counter::Bytes(flow2, kind2)) => if flow == flow2 && kind
            == kind2 {
            n as int
        } else {
            0
        },
        (Event::Sample(op), Counter::Samples(op2)) => if op == op2 {
            1
        } else {
            0
        },
        _ => 0,
    }
}

/// The sum of what the recordings `evs` add to the accumulator `c`.
pub open spec fn total(evs: Seq<Event>, c: Counter) -> int
    decreases evs.len(),
{
    if evs.len() == 0 {
        0
    } else {
        contribution(evs[0], c) + total(evs.drop_first(), c)
    }
}

/// One recording moves an accumulator by exactly its contribution,
/// saturating at the largest counter value, and keeps the model valid.
proof fn lemma_step_counter(m: RecorderModel, e: Event, c: Counter)
    requires
        m.valid(),
    ensures
        step(m, e).valid(),
        0 <= contribution(e, c),
        step(m, e).counter(c) == sat_add64(m.counter(c), contribution(e, c)),
{
}

/// No recording subtracts from any accumulator.
proof fn lemma_total_nonneg(evs: Seq<Event>, c: Counter)
    ensures
        0 <= total(evs, c),
    decreases evs.len(),
{
    if evs.len() > 0 {
        assert(0 <= contribution(evs[0], c));
        lemma_total_nonneg(evs.drop_first(), c);
    }
}

/// Counter monotonicity: after any sequence of recordings, each
/// accumulator is at least its value before the sequence.
pub proof fn lemma_counters_monotonic(m: RecorderModel, evs: Seq<Event>, c: Counter)
    requires
        m.valid(),
    ensures
        run(m, evs).valid(),
        m.counter(c) <= run(m, evs).counter(c),
    decreases evs.len(),
{
    if evs.len() > 0 {
        lemma_step_counter(m, evs[0], c);
        lemma_counters_monotonic(step(m, evs[0]), evs.drop_first(), c);
    }
}

/// The recordings one served lookup of `key` against the mapping `m`
/// makes, in order.
pub open spec fn get_events(m: Map<Seq<char>, Seq<char>>, key: Seq<char>) -> Seq<Event> {
    if m.contains_key(key) {
        seq![
            Event::Bytes(Flow::Read, Kind::Key, byte_len(key) as u64),
            Event::Bytes(Flow::Read, Kind::Value, byte_len(m[key]) as u64),
            Event::Sample(Op::Get),
        ]
    } else {
        seq![Event::Bytes(Flow::Read, Kind::Key, byte_len(key) as u64), Event::Sample(Op::Get)]
    }
}

/// The recordings one served write of `key` to `value` makes, in order.
pub open spec fn set_events(key: Seq<char>, value: Seq<char>) -> Seq<Event> {
    seq![
        Event::Bytes(Flow::Write, Kind::Key, byte_len(key) as u64),
        Event::Bytes(Flow::Write, Kind::Value, byte_len(value) as u64),
        Event::Sample(Op::Put),
    ]
}

/// A served lookup moves the recorder exactly as its recordings, run in
/// order, do — so the counter laws below speak of handled requests.
pub proof fn lemma_get_effect_is_run(
    rec: RecorderModel,
    m: Map<Seq<char>, Seq<char>>,
    key: Seq<char>,
)
    ensures
        get_effect(rec, m, key) == run(rec, get_events(m, key)),
{
    let evs = get_events(m, key);
    assert(0 <= byte_len(key) <= u64::MAX as int && (byte_len(key) as u64) as int == byte_len(
        key,
    ));
    if m.contains_key(key) {
        assert(0 <= byte_len(m[key]) <= u64::MAX as int && (byte_len(m[key]) as u64) as int
            == byte_len(m[key]));
        let tail = evs.drop_first();
        let tail2 = tail.drop_first();
        assert(tail[0] == evs[1] && tail2[0] == evs[2]);
        assert(tail2.drop_first().len() == 0);
        let r1 = step(rec, evs[0]);
        let r2 = step(r1, tail[0]);
        let r3 = step(r2, tail2[0]);
        assert(run(rec, evs) == run(r1, tail));
        assert(run(r1, tail) == run(r2, tail2));
        assert(run(r2, tail2) == run(r3, tail2.drop_first()));
        assert(run(r3, tail2.drop_first()) == r3);
    } else {
        let tail = evs.drop_first();
        assert(tail[0] == evs[1]);
        assert(tail.drop_first().len() == 0);
        let r1 = step(rec, evs[0]);
        let r2 = step(r1, tail[0]);
        assert(run(rec, evs) == run(r1, tail));
        assert(run(r1, tail) == run(r2, tail.drop_first()));
        assert(run(r2, tail.drop_first()) == r2);
    }
}

/// A served write moves the recorder exactly as its recordings, run in
/// order, do.
pub proof fn lemma_set_effect_is_run(rec: RecorderModel, key: Seq<char>, value: Seq<char>)
    ensures
        set_effect(rec, key, value) == run(rec, set_events(key, value)),
{
    let evs = set_events(key, value);
    assert(0 <= byte_len(key) <= u64::MAX as int && (byte_len(key) as u64) as int == byte_len(
        key,
    ));
    assert(0 <= byte_len(value) <= u64::MAX as int && (byte_len(value) as u64) as int == byte_len(
        value,
    ));
    let tail = evs.drop_first();
    let tail2 = tail.drop_first();
    assert(tail[0] == evs[1] && tail2[0] == evs[2]);
    assert(tail2.drop_first().len() == 0);
    let r1 = step(rec, evs[0]);
    let r2 = step(r1, tail[0]);
    let r3 = step(r2, tail2[0]);
    assert(run(rec, evs) == run(r1, tail));
    assert(run(r1, tail) == run(r2, tail2));
    assert(run(r2, tail2) == run(r3, tail2.drop_first()));
    assert(run(r3, tail2.drop_first()) == r3);
}

/// Counter exactness: as long as an accumulator stays representable, it
/// equals its value before the sequence plus the exact sum of what the
/// recordings attributed to it.
pub proof fn lemma_counters_exact(m: RecorderModel, evs: Seq<Event>, c: Counter)
    requires
        m.valid(),
        m.counter(c) + total(evs, c) <= u64::MAX as int,
    ensures
        run(m, evs).counter(c) == m.counter(c) + total(evs, c),
    decreases evs.len(),
{
    if evs.len() > 0 {
        lemma_total_nonneg(evs.drop_first(), c);
        lemma_step_counter(m, evs[0], c);
        lemma_counters_exact(step(m, evs[0]), evs.drop_first(), c);
    }
}

} // verus!
