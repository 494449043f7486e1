//! Trusted boundary to the `prometheus` crate: the recorder's histograms,
//! counters and text exposition live there. Every item here is believed,
//! not verified; each doc comment names the outside functions relied on.

use vstd::prelude::*;

verus! {

#[verifier::external_type_specification]
#[verifier::external_body]
pub struct ExRegistry(prometheus::Registry);

#[verifier::external_type_specification]
#[verifier::external_body]
pub struct ExHistogramTimer(prometheus::HistogramTimer);

/// A labelled duration histogram of the `prometheus` crate, opaque to
/// verification: the crate does not export the builder type its
/// `HistogramVec` alias expands to, so the handle is held behind this
/// struct instead of a declaration of the type itself.
#[verifier::external_body]
pub struct DurationHistogram {
    inner: prometheus::HistogramVec,
}

/// A labelled cumulative integer counter family of the `prometheus`
/// crate, opaque to verification for the same reason as
/// [`DurationHistogram`].
#[verifier::external_body]
pub struct FlowCounter {
    inner: prometheus::IntCounterVec,
}

/// The fully-qualified metric name a counter family was created with.
pub uninterp spec fn counter_name(c: FlowCounter) -> Seq<char>;

/// The fully-qualified metric name a histogram family was created with.
pub uninterp spec fn histogram_name(h: DurationHistogram) -> Seq<char>;

/// A character the metrics crate accepts anywhere in a label name:
/// `[a-zA-Z_]`.
pub open spec fn label_name_char(c: char) -> bool {
    ('a' <= c && c <= 'z') || ('A' <= c && c <= 'Z') || c == '_'
}

/// A character it accepts anywhere in a metric name: a label character
/// or a colon.
pub open spec fn metric_name_char(c: char) -> bool {
    label_name_char(c) || c == ':'
}

/// An ASCII digit, accepted in either kind of name after the first
/// character.
pub open spec fn digit_char(c: char) -> bool {
    '0' <= c && c <= '9'
}

/// A name the metrics crate accepts for a metric: one leading
/// `[a-zA-Z_:]` character, then any of `[a-zA-Z0-9_:]`.
pub open spec fn valid_metric_name(s: Seq<char>) -> bool {
    &&& s.len() > 0
    &&& metric_name_char(s[0])
    &&& forall|i: int| 1 <= i < s.len() ==> metric_name_char(#[trigger] s[i]) || digit_char(s[i])
}

/// A name it accepts for a label: one leading `[a-zA-Z_]` character,
/// then any of `[a-zA-Z0-9_]`.
pub open spec fn valid_label_name(s: Seq<char>) -> bool {
    &&& s.len() > 0
    &&& label_name_char(s[0])
    &&& forall|i: int| 1 <= i < s.len() ==> label_name_char(#[trigger] s[i]) || digit_char(s[i])
}

/// The export registry, together with the ledger of fully-qualified
/// names registered into it so far. Only the wrappers below touch the
/// registry, and each registration puts its collector's name on the
/// ledger, so a name not on the ledger is new to the registry.
pub struct Exporter {
    registry: prometheus::Registry,
    names: Ghost<Set<Seq<char>>>,
}

impl Exporter {
    /// The fully-qualified names registered so far.
    pub closed spec fn registered(&self) -> Set<Seq<char>> {
        self.names@
    }
}

/// Relies on prometheus::Registry::new: a fresh registry holding no
/// collector at all.
#[verifier::external_body]
fn new_registry() -> prometheus::Registry {
    prometheus::Registry::new()
}

/// A fresh registry with an empty ledger: nothing registered yet.
pub(crate) fn new_exporter() -> (r: Exporter)
    ensures
        r.registered() == Set::<Seq<char>>::empty(),
{
    Exporter { registry: new_registry(), names: Ghost(Set::empty()) }
}

/// Relies on prometheus::HistogramVec::new (options built by
/// prometheus::HistogramOpts::new): a duration histogram partitioned by
/// one label. Construction checks exactly that the metric name and the
/// label name are well formed and the help text non-empty (the crate's
/// Desc::new), so on such inputs it returns the histogram.
#[verifier::external_body]
pub(crate) fn new_duration_histogram(name: &str, help: &str, label: &str) -> (r: Option<
    DurationHistogram,
>)
    ensures
        valid_metric_name(name@) && valid_label_name(label@) && help@.len() > 0 ==> r.is_some(),
        r matches Some(h) ==> histogram_name(h) == name@,
{
    match prometheus::HistogramVec::new(prometheus::HistogramOpts::new(name, help), &[label]) {
        Ok(inner) => Some(DurationHistogram { inner }),
        Err(_) => None,
    }
}

/// Relies on prometheus::IntCounterVec::new (options built by
/// prometheus::Opts::new): a cumulative integer counter family
/// partitioned by one label, validated exactly as the histogram above.
#[verifier::external_body]
pub(crate) fn new_flow_counter(name: &str, help: &str, label: &str) -> (r: Option<FlowCounter>)
    ensures
        valid_metric_name(name@) && valid_label_name(label@) && help@.len() > 0 ==> r.is_some(),
        r matches Some(c) ==> counter_name(c) == name@,
{
    match prometheus::IntCounterVec::new(prometheus::Opts::new(name, help), &[label]) {
        Ok(inner) => Some(FlowCounter { inner }),
        Err(_) => None,
    }
}

/// Relies on prometheus::Registry::register: it refuses only a clash
/// with an already-registered descriptor, and descriptors are told apart
/// by their fully-qualified name, so a histogram whose name is not yet
/// on the ledger goes in; either way the name is on the ledger after.
/// After `true`, the histogram is reported by the registry's gather.
#[verifier::external_body]
pub(crate) fn register_duration_histogram(ex: &mut Exporter, h: &DurationHistogram) -> (r: bool)
    ensures
        final(ex).registered() == old(ex).registered().insert(histogram_name(*h)),
        !old(ex).registered().contains(histogram_name(*h)) ==> r,
{
    ex.registry.register(Box::new(h.inner.clone())).is_ok()
}

/// Relies on prometheus::Registry::register, exactly as for the
/// histogram: a counter family whose name is not yet on the ledger goes
/// in, and after `true` it is reported by the registry's gather.
#[verifier::external_body]
pub(crate) fn register_flow_counter(ex: &mut Exporter, c: &FlowCounter) -> (r: bool)
    ensures
        final(ex).registered() == old(ex).registered().insert(counter_name(*c)),
        !old(ex).registered().contains(counter_name(*c)) ==> r,
{
    ex.registry.register(Box::new(c.inner.clone())).is_ok()
}

/// Relies on prometheus::core::MetricVec::get_metric_with_label_values
/// and prometheus::core::GenericCounter::inc_by: adds `amount` to the
/// counter labelled `label`; recording is best effort and never fails
/// the caller.
#[verifier::external_body]
pub(crate) fn inc_flow_counter(c: &FlowCounter, label: &str, amount: u64) {
    if let Ok(counter) = c.inner.get_metric_with_label_values(&[label]) {
        counter.inc_by(amount);
    }
}

/// Relies on prometheus::core::MetricVec::get_metric_with_label_values
/// and prometheus::Histogram::start_timer: begins timing against the
/// histogram labelled `label`; `None` when the label is rejected.
#[verifier::external_body]
pub(crate) fn start_duration_timer(h: &DurationHistogram, label: &str) -> Option<
    prometheus::HistogramTimer,
> {
    match h.inner.get_metric_with_label_values(&[label]) {
        Ok(histogram) => Some(histogram.start_timer()),
        Err(_) => None,
    }
}

/// Relies on prometheus::HistogramTimer::observe_duration: records the
/// time elapsed since the timer started into its histogram.
#[verifier::external_body]
pub(crate) fn observe_timer(t: prometheus::HistogramTimer) {
    t.observe_duration();
}

/// Relies on prometheus::Registry::gather and
/// prometheus::TextEncoder::encode_to_string: gather snapshots the
/// registered collectors, dropping any family that holds no metric, and
/// the encoder renders every named, metric-holding family into a
/// `String`, which cannot fail to take the bytes. Every collector this
/// module registers carries a validated non-empty name, so the rendering
/// succeeds; before any recording it is legitimately empty.
#[verifier::external_body]
pub(crate) fn export_text(ex: &Exporter) -> (r: Option<String>)
    ensures
        r.is_some(),
{
    let families = ex.registry.gather();
    match prometheus::TextEncoder::new().encode_to_string(families.as_slice()) {
        Ok(text) => Some(text),
        Err(_) => None,
    }
}

} // verus!
