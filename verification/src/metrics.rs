use crate::prom;
use vstd::prelude::*;

verus! {

/// Classification of a byte-counting event: bytes read out of the store
/// or written into it.
#[derive(Clone, Copy)]
pub enum Flow {
    Read,
    Write,
}

/// Which part of an entry a byte count speaks of.
#[derive(Clone, Copy)]
pub enum Kind {
    Key,
    Value,
}

/// Classification of a timed event: a lookup, or a `set` (insert or
/// overwrite).
#[derive(Clone, Copy)]
pub enum Op {
    Get,
    Put,
}

/// One of the recorder's accumulators.
#[derive(Clone, Copy)]
pub enum Counter {
    Bytes(Flow, Kind),
    Samples(Op),
}

/// The abstract state of a recorder: cumulative byte counters per flow
/// and kind, and the number of duration samples per operation.
pub struct RecorderModel {
    pub read_key_bytes: int,
    pub read_value_bytes: int,
    pub write_key_bytes: int,
    pub write_value_bytes: int,
    pub get_samples: int,
    pub set_samples: int,
}

/// Addition that stops at the largest representable counter value, so a
/// counter never wraps and never decreases.
pub open spec fn sat_add64(a: int, n: int) -> int {
    if a + n <= u64::MAX as int {
        a + n
    } else {
        u64::MAX as int
    }
}

impl RecorderModel {
    /// Every accumulator is a representable counter value.
    pub open spec fn valid(self) -> bool {
        &&& 0 <= self.read_key_bytes <= u64::MAX as int
        &&& 0 <= self.read_value_bytes <= u64::MAX as int
        &&& 0 <= self.write_key_bytes <= u64::MAX as int
        &&& 0 <= self.write_value_bytes <= u64::MAX as int
        &&& 0 <= self.get_samples <= u64::MAX as int
        &&& 0 <= self.set_samples <= u64::MAX as int
    }

    /// The state of a recorder that has seen nothing yet.
    pub open spec fn zeroed() -> RecorderModel {
        RecorderModel {
            read_key_bytes: 0,
            read_value_bytes: 0,
            write_key_bytes: 0,
            write_value_bytes: 0,
            get_samples: 0,
            set_samples: 0,
        }
    }

    /// The value of one accumulator.
    pub open spec fn counter(self, c: Counter) -> int {
        match c {
            Counter::Bytes(Flow::Read, Kind::Key) => self.read_key_bytes,
            Counter::Bytes(Flow::Read, Kind::Value) => self.read_value_bytes,
            Counter::Bytes(Flow::Write, Kind::Key) => self.write_key_bytes,
            Counter::Bytes(Flow::Write, Kind::Value) => self.write_value_bytes,
            Counter::Samples(Op::Get) => self.get_samples,
            Counter::Samples(Op::Put) => self.set_samples,
        }
    }
}

/// The model after `n` more bytes are attributed to `(flow, kind)`.
pub open spec fn spec_add_bytes(m: RecorderModel, flow: Flow, kind: Kind, n: int) -> RecorderModel {
    match (flow, kind) {
        (Flow::Read, Kind::Key) => RecorderModel {
            read_key_bytes: sat_add64(m.read_key_bytes, n),
            ..m
        },
        (Flow::Read, Kind::Value) => RecorderModel {
            read_value_bytes: sat_add64(m.read_value_bytes, n),
            ..m
        },
        (Flow::Write, Kind::Key) => RecorderModel {
            write_key_bytes: sat_add64(m.write_key_bytes, n),
            ..m
        },
        (Flow::Write, Kind::Value) => RecorderModel {
            write_value_bytes: sat_add64(m.write_value_bytes, n),
            ..m
        },
    }
}

/// The model after one more duration sample is attributed to `op`.
pub open spec fn spec_sample(m: RecorderModel, op: Op) -> RecorderModel {
    match op {
        Op::Get => RecorderModel { get_samples: sat_add64(m.get_samples, 1), ..m },
        Op::Put => RecorderModel { set_samples: sat_add64(m.set_samples, 1), ..m },
    }
}

/// A running duration measurement. The caller receives it from
/// [`Recorder::start_timer`] and hands it back to
/// [`Recorder::stop_timer`] on every exit path, so each started
/// measurement is recorded exactly once.
pub struct Timer {
    inner: Option<prometheus::HistogramTimer>,
    operation: Op,
}

impl Timer {
    /// The operation this measurement is attributed to.
    pub closed spec fn op(&self) -> Op {
        self.operation
    }
}

/// Records, per operation, duration samples and cumulative byte
/// counters for keys and values read and written. The counters modelled
/// here are mirrored into a `prometheus` registry, which renders the
/// point-in-time export.
pub struct Recorder {
    exporter: prom::Exporter,
    durations: prom::DurationHistogram,
    key_flow: prom::FlowCounter,
    value_flow: prom::FlowCounter,
    read_key_bytes: u64,
    read_value_bytes: u64,
    write_key_bytes: u64,
    write_value_bytes: u64,
    get_samples: u64,
    set_samples: u64,
}

impl View for Recorder {
    type V = RecorderModel;

    closed spec fn view(&self) -> RecorderModel {
        RecorderModel {
            read_key_bytes: self.read_key_bytes as int,
            read_value_bytes: self.read_value_bytes as int,
            write_key_bytes: self.write_key_bytes as int,
            write_value_bytes: self.write_value_bytes as int,
            get_samples: self.get_samples as int,
            set_samples: self.set_samples as int,
        }
    }
}

/// `a + n`, stopping at the largest counter value instead of wrapping.
fn sat_add_u64(a: u64, n: u64) -> (r: u64)
    ensures
        r as int == sat_add64(a as int, n as int),
{
    if n <= u64::MAX - a {
        a + n
    } else {
        u64::MAX
    }
}

impl Recorder {
    /// A recorder with all accumulators at zero, its three collectors
    /// registered for export. Construction always succeeds: the fixed
    /// metric and label names are proved well formed, and the names are
    /// distinct, so each registration into the fresh registry goes in.
    pub fn new() -> (r: Option<Recorder>)
        ensures
            r.is_some(),
            r matches Some(rec) ==> rec@ == RecorderModel::zeroed(),
    {
        proof {
            reveal_strlit("http_request_duration_seconds");
            reveal_strlit("Request handling duration.");
            reveal_strlit("op");
            reveal_strlit("key_flow_bytes_total");
            reveal_strlit("Cumulative key bytes, by flow.");
            reveal_strlit("value_flow_bytes_total");
            reveal_strlit("Cumulative value bytes, by flow.");
            reveal_strlit("flow");
            assert(prom::valid_metric_name("http_request_duration_seconds"@));
            assert(prom::valid_metric_name("key_flow_bytes_total"@));
            assert(prom::valid_metric_name("value_flow_bytes_total"@));
            assert(prom::valid_label_name("op"@));
            assert(prom::valid_label_name("flow"@));
            assert("Request handling duration."@.len() > 0);
            assert("Cumulative key bytes, by flow."@.len() > 0);
            assert("Cumulative value bytes, by flow."@.len() > 0);
            assert("http_request_duration_seconds"@.len() == 29);
            assert("key_flow_bytes_total"@.len() == 20);
            assert("value_flow_bytes_total"@.len() == 22);
        }
        let mut exporter = prom::new_exporter();
        let durations = match prom::new_duration_histogram(
            "http_request_duration_seconds",
            "Request handling duration.",
            "op",
        ) {
            Some(h) => h,
            None => {
                return None;
            },
        };
        let key_flow = match prom::new_flow_counter(
            "key_flow_bytes_total",
            "Cumulative key bytes, by flow.",
            "flow",
        ) {
            Some(c) => c,
            None => {
                return None;
            },
        };
        let value_flow = match prom::new_flow_counter(
            "value_flow_bytes_total",
            "Cumulative value bytes, by flow.",
            "flow",
        ) {
            Some(c) => c,
            None => {
                return None;
            },
        };
        if !prom::register_duration_histogram(&mut exporter, &durations) {
            return None;
        }
        if !prom::register_flow_counter(&mut exporter, &key_flow) {
            return None;
        }
        if !prom::register_flow_counter(&mut exporter, &value_flow) {
            return None;
        }
        Some(
            Recorder {
                exporter,
                durations,
                key_flow,
                value_flow,
                read_key_bytes: 0,
                read_value_bytes: 0,
                write_key_bytes: 0,
                write_value_bytes: 0,
                get_samples: 0,
                set_samples: 0,
            },
        )
    }

    /// Atomically attribute `amount` more bytes to `(flow, kind)`; every
    /// other accumulator is unchanged. Recording into the export
    /// registry is best effort and never fails the caller.
    pub fn add_bytes(&mut self, flow: Flow, kind: Kind, amount: u64)
        ensures
            final(self)@ == spec_add_bytes(old(self)@, flow, kind, amount as int),
    {
        let label = match flow {
            Flow::Read => "read",
            Flow::Write => "write",
        };
        match kind {
            Kind::Key => prom::inc_flow_counter(&self.key_flow, label, amount),
            Kind::Value => prom::inc_flow_counter(&self.value_flow, label, amount),
        }
        match (flow, kind) {
            (Flow::Read, Kind::Key) => {
                self.read_key_bytes = sat_add_u64(self.read_key_bytes, amount);
            },
            (Flow::Read, Kind::Value) => {
                self.read_value_bytes = sat_add_u64(self.read_value_bytes, amount);
            },
            (Flow::Write, Kind::Key) => {
                self.write_key_bytes = sat_add_u64(self.write_key_bytes, amount);
            },
            (Flow::Write, Kind::Value) => {
                self.write_value_bytes = sat_add_u64(self.write_value_bytes, amount);
            },
        }
    }

    /// Begin timing an operation. The returned measurement is handed
    /// back to [`Recorder::stop_timer`] when the operation finishes.
    pub fn start_timer(&self, op: Op) -> (t: Timer)
        ensures
            t.op() == op,
    {
        let label = match op {
            Op::Get => "get",
            Op::Put => "set",
        };
        Timer { inner: prom::start_duration_timer(&self.durations, label), operation: op }
    }

    /// Finish a measurement: record the elapsed duration into the timed
    /// operation's histogram and count one more sample for it.
    pub fn stop_timer(&mut self, t: Timer)
        ensures
            final(self)@ == spec_sample(old(self)@, t.op()),
    {
        let Timer { inner, operation } = t;
        match inner {
            Some(running) => prom::observe_timer(running),
            None => {},
        }
        match operation {
            Op::Get => {
                self.get_samples = sat_add_u64(self.get_samples, 1);
            },
            Op::Put => {
                self.set_samples = sat_add_u64(self.set_samples, 1);
            },
        }
    }

    /// Every recorder's abstract state is a valid model, so the counter
    /// laws apply to it.
    pub proof fn lemma_view_valid(&self)
        ensures
            self@.valid(),
    {
    }

    /// The current value of one accumulator.
    pub fn counter_value(&self, c: Counter) -> (r: u64)
        ensures
            r as int == self@.counter(c),
    {
        match c {
            Counter::Bytes(Flow::Read, Kind::Key) => self.read_key_bytes,
            Counter::Bytes(Flow::Read, Kind::Value) => self.read_value_bytes,
            Counter::Bytes(Flow::Write, Kind::Key) => self.write_key_bytes,
            Counter::Bytes(Flow::Write, Kind::Value) => self.write_value_bytes,
            Counter::Samples(Op::Get) => self.get_samples,
            Counter::Samples(Op::Put) => self.set_samples,
        }
    }

    /// A point-in-time export of all histograms and counters in the
    /// plain text exposition format; always some text, possibly empty
    /// before any recording. Read-only: safe to call while recording
    /// continues.
    pub fn export(&self) -> (r: Option<String>)
        ensures
            r.is_some(),
    {
        prom::export_text(&self.exporter)
    }
}

} // verus!
