//! The observations one request contributes to the instruments, and their
//! mathematical model.

use vstd::prelude::*;
use crate::capture::{
    extract_labels_server_request_duration, labels_server_request_body_size, RequestCapture,
};
use crate::labels::{labels_server_active_request, Label};

verus! {

/// One measurement the middleware emits for a request.
#[derive(Debug)]
pub enum Observation {
    /// A signed addition to `http.server.active_requests`.
    ActiveDelta { delta: i64, labels: Vec<Label> },
    /// An observation of `http.server.request.duration`, in whole nanoseconds.
    DurationNanos { nanos: u128, labels: Vec<Label> },
    /// An observation of `http.server.request.body.size`, in bytes.
    BodySizeBytes { bytes: u64, labels: Vec<Label> },
}

/// Mathematical model of one observation.
#[verifier::ext_equal]
pub enum ObsModel {
    Active { delta: int, labels: Seq<(Seq<char>, Seq<char>)> },
    Duration { nanos: int, labels: Seq<(Seq<char>, Seq<char>)> },
    Body { bytes: int, labels: Seq<(Seq<char>, Seq<char>)> },
}

impl DeepView for Observation {
    type V = ObsModel;

    open spec fn deep_view(&self) -> ObsModel {
        match self {
            Observation::ActiveDelta { delta, labels } => ObsModel::Active {
                delta: *delta as int,
                labels: labels.deep_view(),
            },
            Observation::DurationNanos { nanos, labels } => ObsModel::Duration {
                nanos: *nanos as int,
                labels: labels.deep_view(),
            },
            Observation::BodySizeBytes { bytes, labels } => ObsModel::Body {
                bytes: *bytes as int,
                labels: labels.deep_view(),
            },
        }
    }
}

/// The contribution of one observation to the active-requests counter.
pub open spec fn spec_active_delta(o: ObsModel) -> int {
    match o {
        ObsModel::Active { delta, .. } => delta,
        _ => 0,
    }
}

/// The net change a sequence of observations makes to the active-requests
/// counter.
pub open spec fn spec_active_sum(s: Seq<ObsModel>) -> int
    decreases s.len(),
{
    if s.len() == 0 {
        0
    } else {
        spec_active_delta(s.first()) + spec_active_sum(s.drop_first())
    }
}

/// How many duration observations a sequence holds.
pub open spec fn spec_duration_count(s: Seq<ObsModel>) -> nat
    decreases s.len(),
{
    if s.len() == 0 {
        0
    } else {
        (if s.first() is Duration { 1nat } else { 0nat }) + spec_duration_count(s.drop_first())
    }
}

/// How many body-size observations a sequence holds.
pub open spec fn spec_body_count(s: Seq<ObsModel>) -> nat
    decreases s.len(),
{
    if s.len() == 0 {
        0
    } else {
        (if s.first() is Body { 1nat } else { 0nat }) + spec_body_count(s.drop_first())
    }
}

/// The duration observations of a sequence, in order.
pub open spec fn spec_duration_only(s: Seq<ObsModel>) -> Seq<ObsModel>
    decreases s.len(),
{
    if s.len() == 0 {
        Seq::<ObsModel>::empty()
    } else {
        let rest = spec_duration_only(s.drop_first());
        if s.first() is Duration {
            seq![s.first()] + rest
        } else {
            rest
        }
    }
}

/// A sequence without duration observations filters to nothing.
pub proof fn lemma_duration_only_none(s: Seq<ObsModel>)
    requires
        forall|i: int| 0 <= i < s.len() ==> !(#[trigger] s[i] is Duration),
    ensures
        spec_duration_only(s) == Seq::<ObsModel>::empty(),
    decreases s.len(),
{
    if s.len() == 0 {
        assert(spec_duration_only(s) =~= Seq::<ObsModel>::empty());
    } else {
        assert(!(s[0] is Duration));
        assert forall|i: int| 0 <= i < s.drop_first().len() implies !(#[trigger] s.drop_first()[i]
            is Duration) by {
            assert(s.drop_first()[i] == s[i + 1]);
        }
        lemma_duration_only_none(s.drop_first());
        assert(spec_duration_only(s) =~= Seq::<ObsModel>::empty());
    }
}

/// How the downstream handler's work on one request ended.
pub enum Outcome {
    /// A response with this status was produced after this many nanoseconds.
    Succeeded { status: u16, elapsed_nanos: u128 },
    /// The inner handler yielded an error instead of a response.
    Failed,
    /// The deferred recorder was dropped before the inner handler completed.
    Dropped,
}

/// What request entry emits: one `+1` to active-requests, under the common
/// labels.
pub open spec fn spec_entry_observations(c: RequestCapture) -> Seq<ObsModel> {
    seq![ObsModel::Active { delta: 1, labels: c.spec_active_labels() }]
}

/// What request completion emits. On success: the duration observation, the
/// body-size observation when a body size was captured, and the `-1` to
/// active-requests. On failure or drop: only the `-1`.
pub open spec fn spec_outcome_observations(c: RequestCapture, o: Outcome) -> Seq<ObsModel> {
    match o {
        Outcome::Succeeded { status, elapsed_nanos } => {
            let dur = seq![ObsModel::Duration {
                nanos: elapsed_nanos as int,
                labels: c.spec_duration_labels(status),
            }];
            let body = match c.request_body_size {
                Some(b) => seq![ObsModel::Body {
                    bytes: b as int,
                    labels: c.spec_body_size_labels(status),
                }],
                None => Seq::<ObsModel>::empty(),
            };
            dur + body + seq![ObsModel::Active { delta: -1, labels: c.spec_active_labels() }]
        },
        Outcome::Failed => seq![ObsModel::Active { delta: -1, labels: c.spec_active_labels() }],
        Outcome::Dropped => seq![ObsModel::Active { delta: -1, labels: c.spec_active_labels() }],
    }
}

/// Everything one request emits over its whole life, entry through terminal.
pub open spec fn spec_request_observations(c: RequestCapture, o: Outcome) -> Seq<ObsModel> {
    spec_entry_observations(c) + spec_outcome_observations(c, o)
}

/// Success completion holds exactly one duration observation, and filtering
/// for it yields that observation alone.
pub proof fn lemma_duration_only_success(c: RequestCapture, status: u16, nanos: u128)
    ensures
        spec_duration_only(
            spec_outcome_observations(c, Outcome::Succeeded { status, elapsed_nanos: nanos }),
        ) == seq![ObsModel::Duration {
            nanos: nanos as int,
            labels: c.spec_duration_labels(status),
        }],
{
    let s = spec_outcome_observations(c, Outcome::Succeeded { status, elapsed_nanos: nanos });
    let dur = ObsModel::Duration { nanos: nanos as int, labels: c.spec_duration_labels(status) };
    let act = ObsModel::Active { delta: -1, labels: c.spec_active_labels() };
    let empty = Seq::<ObsModel>::empty();
    assert(spec_duration_only(empty) =~= empty);
    match c.request_body_size {
        Some(b) => {
            let body = ObsModel::Body { bytes: b as int, labels: c.spec_body_size_labels(status) };
            assert(s =~= seq![dur, body, act]);
            assert(seq![act].drop_first() =~= empty);
            assert(spec_duration_only(seq![act]) =~= empty);
            assert(seq![body, act].drop_first() =~= seq![act]);
            assert(spec_duration_only(seq![body, act]) =~= empty);
            assert(s.drop_first() =~= seq![body, act]);
            assert(spec_duration_only(s) =~= seq![dur]);
        },
        None => {
            assert(s =~= seq![dur, act]);
            assert(seq![act].drop_first() =~= empty);
            assert(spec_duration_only(seq![act]) =~= empty);
            assert(s.drop_first() =~= seq![act]);
            assert(spec_duration_only(s) =~= seq![dur]);
        },
    }
}

/// Builds the entry observations of a request.
pub fn entry_observations(c: &RequestCapture) -> (r: Vec<Observation>)
    ensures
        r.deep_view() == spec_entry_observations(*c),
{
    let labels = labels_server_active_request(&c.method, &c.url_scheme);
    let mut r: Vec<Observation> = Vec::new();
    r.push(Observation::ActiveDelta { delta: 1, labels });
    proof {
        assert(r.deep_view() =~= spec_entry_observations(*c));
    }
    r
}

/// Builds the completion observations of a request whose inner handler
/// produced a response with the given status after `nanos` nanoseconds.
pub fn success_observations(c: &RequestCapture, status: u16, nanos: u128) -> (r: Vec<Observation>)
    ensures
        r.deep_view() == spec_outcome_observations(
            *c,
            Outcome::Succeeded { status, elapsed_nanos: nanos },
        ),
{
    let mut r: Vec<Observation> = Vec::new();
    let dur_labels = extract_labels_server_request_duration(c, status);
    r.push(Observation::DurationNanos { nanos, labels: dur_labels });
    match c.request_body_size {
        Some(bytes) => {
            let body_labels = labels_server_request_body_size(c, status);
            r.push(Observation::BodySizeBytes { bytes, labels: body_labels });
        },
        None => {},
    }
    let active_labels = labels_server_active_request(&c.method, &c.url_scheme);
    r.push(Observation::ActiveDelta { delta: -1, labels: active_labels });
    proof {
        assert(r.deep_view() =~= spec_outcome_observations(
            *c,
            Outcome::Succeeded { status, elapsed_nanos: nanos },
        ));
    }
    r
}

/// Builds the completion observations of a request that ended without a
/// response — an inner-handler error or a drop. Either way the only emission
/// is the `-1` to active-requests.
pub fn decrement_observations(c: &RequestCapture) -> (r: Vec<Observation>)
    ensures
        r.deep_view() == spec_outcome_observations(*c, Outcome::Failed),
        r.deep_view() == spec_outcome_observations(*c, Outcome::Dropped),
{
    let labels = labels_server_active_request(&c.method, &c.url_scheme);
    let mut r: Vec<Observation> = Vec::new();
    r.push(Observation::ActiveDelta { delta: -1, labels });
    proof {
        assert(r.deep_view() =~= spec_outcome_observations(*c, Outcome::Failed));
    }
    r
}

} // verus!
