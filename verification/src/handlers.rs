use crate::metrics::{spec_add_bytes, spec_sample, Flow, Kind, Op, Recorder};
use crate::store::{entries_match, view_pairs, Store};
use vstd::prelude::*;
use vstd::string::StringExecFns;

verus! {

/// How many bytes the UTF-8 encoding of `s` takes: what the byte
/// counters accumulate for a key or value with those characters. Read
/// at the machine's address width, which a string held in memory never
/// exceeds.
pub open spec fn byte_len(s: Seq<char>) -> int {
    (vstd::utf8::encode_utf8(s).len() as usize) as int
}

/// The response body for a lookup that found `v` under `k`.
pub open spec fn get_hit_text(k: Seq<char>, v: Seq<char>) -> Seq<char> {
    "GET: key:"@ + k + ", value:"@ + v
}

/// The response body for a lookup that found no entry for `k`.
pub open spec fn get_miss_text(k: Seq<char>) -> Seq<char> {
    "No key "@ + k + " found"@
}

/// The response body confirming that `k` is now bound to `v`.
pub open spec fn set_text(k: Seq<char>, v: Seq<char>) -> Seq<char> {
    "SET: key:"@ + k + ", value:"@ + v
}

/// One line of the listing response: `key: value`.
pub open spec fn entry_line(k: Seq<char>, v: Seq<char>) -> Seq<char> {
    k + ": "@ + v + "\n"@
}

/// The listing response: one line per listed entry, in order.
pub open spec fn list_text(es: Seq<(Seq<char>, Seq<char>)>) -> Seq<char>
    decreases es.len(),
{
    if es.len() == 0 {
        Seq::<char>::empty()
    } else {
        list_text(es.drop_last()) + entry_line(es.last().0, es.last().1)
    }
}

/// The response body when the metrics export cannot be encoded.
pub open spec fn export_error_text() -> Seq<char> {
    "metrics export failed"@
}

/// The recorder state after a lookup of `key` against mapping `m`,
/// starting from `rec`: the key's bytes are counted as read, the found
/// value's bytes too on a hit, and one lookup duration sample is taken.
pub open spec fn get_effect(
    rec: crate::metrics::RecorderModel,
    m: Map<Seq<char>, Seq<char>>,
    key: Seq<char>,
) -> crate::metrics::RecorderModel {
    let keyed = spec_add_bytes(rec, Flow::Read, Kind::Key, byte_len(key));
    if m.contains_key(key) {
        spec_sample(spec_add_bytes(keyed, Flow::Read, Kind::Value, byte_len(m[key])), Op::Get)
    } else {
        spec_sample(keyed, Op::Get)
    }
}

/// The recorder state after `key` is bound to `value`, starting from
/// `rec`: both byte counts are counted as written and one `set`
/// duration sample is taken.
pub open spec fn set_effect(
    rec: crate::metrics::RecorderModel,
    key: Seq<char>,
    value: Seq<char>,
) -> crate::metrics::RecorderModel {
    spec_sample(
        spec_add_bytes(
            spec_add_bytes(rec, Flow::Write, Kind::Key, byte_len(key)),
            Flow::Write,
            Kind::Value,
            byte_len(value),
        ),
        Op::Put,
    )
}

/// Serve a lookup: time it, count the key's bytes as read (even on a
/// miss), count the found value's bytes on a hit, and answer with the
/// hit or miss body. The store is only read.
pub fn handle_get(store: &Store, rec: &mut Recorder, key: &String) -> (resp: String)
    requires
        store.wf(),
    ensures
        final(rec)@ == get_effect(old(rec)@, store@, key@),
        resp@ == if store@.contains_key(key@) {
            get_hit_text(key@, store@[key@])
        } else {
            get_miss_text(key@)
        },
{
    let timer = rec.start_timer(Op::Get);
    let key_bytes = key.as_str().len();
    rec.add_bytes(Flow::Read, Kind::Key, key_bytes as u64);
    let resp = match store.get(key) {
        Some(value) => {
            let value_bytes = value.as_str().len();
            rec.add_bytes(Flow::Read, Kind::Value, value_bytes as u64);
            let mut body = "GET: key:".to_owned();
            body.append(key.as_str());
            body.append(", value:");
            body.append(value.as_str());
            body
        },
        None => {
            let mut body = "No key ".to_owned();
            body.append(key.as_str());
            body.append(" found");
            body
        },
    };
    rec.stop_timer(timer);
    resp
}

/// Serve a `set`: time it, bind `key` to `value` (inserting or
/// overwriting), count both byte lengths as written, and confirm.
pub fn handle_set(
    store: &mut Store,
    rec: &mut Recorder,
    key: &String,
    value: &String,
) -> (resp: String)
    requires
        old(store).wf(),
    ensures
        final(store).wf(),
        final(store)@ == old(store)@.insert(key@, value@),
        final(rec)@ == set_effect(old(rec)@, key@, value@),
        resp@ == set_text(key@, value@),
{
    let timer = rec.start_timer(Op::Put);
    let key_bytes = key.as_str().len();
    let value_bytes = value.as_str().len();
    store.set(key.clone(), value.clone());
    rec.add_bytes(Flow::Write, Kind::Key, key_bytes as u64);
    rec.add_bytes(Flow::Write, Kind::Value, value_bytes as u64);
    let mut body = "SET: key:".to_owned();
    body.append(key.as_str());
    body.append(", value:");
    body.append(value.as_str());
    rec.stop_timer(timer);
    body
}

/// Serve a listing: a dump with one `key: value` line for each current
/// binding, each key exactly once. Neither timed nor byte-counted, and
/// the store is only read.
pub fn handle_list(store: &Store) -> (resp: String)
    requires
        store.wf(),
    ensures
        exists|es: Seq<(Seq<char>, Seq<char>)>|
            entries_match(es, store@) && resp@ == list_text(es),
{
    let snap = store.snapshot();
    let mut resp = String::new();
    let n = snap.len();
    let mut i: usize = 0;
    while i < n
        invariant
            i <= n,
            n == snap@.len(),
            resp@ == list_text(view_pairs(snap@).subrange(0, i as int)),
        decreases n - i,
    {
        let entry = &snap[i];
        resp.append(entry.0.as_str());
        resp.append(": ");
        resp.append(entry.1.as_str());
        resp.append("\n");
        proof {
            let vp = view_pairs(snap@);
            assert(vp.subrange(0, i + 1 as int).drop_last() =~= vp.subrange(0, i as int));
            assert(vp.subrange(0, i + 1 as int).last() == vp[i as int]);
        }
        i = i + 1;
    }
    proof {
        assert(view_pairs(snap@).subrange(0, n as int) =~= view_pairs(snap@));
    }
    resp
}

/// The response for a metrics export: the exposition text when encoding
/// succeeded, a diagnostic body when it did not.
pub fn metrics_response(export: Option<String>) -> (resp: String)
    ensures
        match export {
            Some(text) => resp == text,
            None => resp@ == export_error_text(),
        },
{
    match export {
        Some(text) => text,
        None => "metrics export failed".to_owned(),
    }
}

/// Serve a metrics export: whatever the recorder's registry renders, or
/// the diagnostic body when encoding fails. Not timed, so the export
/// does not skew its own measurements.
pub fn handle_metrics(rec: &Recorder) -> (resp: String) {
    metrics_response(rec.export())
}

} // verus!
