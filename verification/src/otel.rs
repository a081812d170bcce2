//! Trusted boundary to the OpenTelemetry metrics API.
//!
//! The instruments and the meter are opaque handles of the `opentelemetry`
//! crate; each wrapper below makes exactly one API call and converts plain
//! library values into the crate's argument types.

use vstd::prelude::*;
use crate::labels::Label;

verus! {

#[verifier::external_type_specification]
#[verifier::external_body]
/// A factory for metric instruments, provided by an observability SDK.
pub struct ExMeter(opentelemetry::metrics::Meter);

#[verifier::external_type_specification]
#[verifier::external_body]
#[verifier::reject_recursive_types(T)]
/// A cumulative metric that may be incremented or decremented.
pub struct ExUpDownCounter<T>(opentelemetry::metrics::UpDownCounter<T>);

#[verifier::external_type_specification]
#[verifier::external_body]
#[verifier::reject_recursive_types(T)]
/// A metric that records a distribution of values.
pub struct ExHistogram<T>(opentelemetry::metrics::Histogram<T>);

#[verifier::external_type_specification]
#[verifier::external_body]
/// A key–value pair in the form the instruments accept.
pub struct ExKeyValue(opentelemetry::KeyValue);

/// Relies on `opentelemetry::global::meter`: a meter handle from the
/// process-wide meter provider. Which provider is installed depends on the
/// process, so nothing is stated about the result.
#[verifier::external_body]
pub(crate) fn global_meter(name: &'static str) -> (r: opentelemetry::metrics::Meter) {
    opentelemetry::global::meter(name)
}

/// Relies on `Meter::i64_up_down_counter` and its builder's `with_unit`,
/// `with_description` and `build`: an up/down counter registered under the
/// given name, unit and description. The handle is opaque, so nothing is
/// stated about the result.
#[verifier::external_body]
pub(crate) fn create_i64_up_down_counter(
    meter: &opentelemetry::metrics::Meter,
    name: &str,
    unit: &str,
    description: &str,
) -> (r: opentelemetry::metrics::UpDownCounter<i64>) {
    meter
        .i64_up_down_counter(name.to_owned())
        .with_unit(unit.to_owned())
        .with_description(description.to_owned())
        .build()
}

/// Relies on `Meter::u64_histogram` and its builder's `with_unit`,
/// `with_description` and `build`: a histogram registered under the given
/// name, unit and description. The handle is opaque, so nothing is stated
/// about the result.
#[verifier::external_body]
pub(crate) fn create_u64_histogram(
    meter: &opentelemetry::metrics::Meter,
    name: &str,
    unit: &str,
    description: &str,
) -> (r: opentelemetry::metrics::Histogram<u64>) {
    meter
        .u64_histogram(name.to_owned())
        .with_unit(unit.to_owned())
        .with_description(description.to_owned())
        .build()
}

/// What `KeyValue::new` returns for a given key and value: a pure
/// constructor, so the pair is a function of the two strings alone.
pub uninterp spec fn spec_key_value(key: Seq<char>, value: Seq<char>) -> opentelemetry::KeyValue;

/// Relies on `KeyValue::new`: the pair holding this key and this value.
#[verifier::external_body]
pub(crate) fn key_value_new(key: &String, value: &String) -> (r: opentelemetry::KeyValue)
    ensures
        r == spec_key_value(key@, value@),
{
    opentelemetry::KeyValue::new(key.clone(), value.clone())
}

/// Converts a label set into the pairs the instruments accept, one for one:
/// the pair at each position holds exactly the key and value of the label at
/// that position.
pub(crate) fn labels_to_key_values(labels: &Vec<Label>) -> (r: Vec<opentelemetry::KeyValue>)
    ensures
        r@.len() == labels@.len(),
        forall|j: int|
            0 <= j < r@.len() ==> #[trigger] r@[j] == spec_key_value(
                labels@[j]@.0,
                labels@[j]@.1,
            ),
{
    let mut r: Vec<opentelemetry::KeyValue> = Vec::new();
    let mut i: usize = 0;
    while i < labels.len()
        invariant
            i <= labels@.len(),
            r@.len() == i,
            forall|j: int|
                0 <= j < i ==> #[trigger] r@[j] == spec_key_value(labels@[j]@.0, labels@[j]@.1),
        decreases labels@.len() - i,
    {
        let label = &labels[i];
        r.push(key_value_new(&label.key, &label.value));
        i = i + 1;
    }
    r
}

/// Relies on `UpDownCounter::add`: adds `value` to the counter's time series
/// identified by the given attributes.
#[verifier::external_body]
pub(crate) fn counter_add(
    counter: &opentelemetry::metrics::UpDownCounter<i64>,
    value: i64,
    attributes: &Vec<opentelemetry::KeyValue>,
) {
    counter.add(value, attributes);
}

/// Relies on `Histogram::record`: adds `value` to the distribution of the
/// time series identified by the given attributes.
#[verifier::external_body]
pub(crate) fn histogram_record_u64(
    histogram: &opentelemetry::metrics::Histogram<u64>,
    value: u64,
    attributes: &Vec<opentelemetry::KeyValue>,
) {
    histogram.record(value, attributes);
}

} // verus!
