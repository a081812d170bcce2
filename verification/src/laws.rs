//! What the middleware guarantees of the observations it emits, stated over
//! the model in [`crate::observe`] and proved for every capture and outcome.

use vstd::prelude::*;
use crate::capture::RequestCapture;
use crate::labels::{spec_dec_str, spec_labels_contain, spec_labels_contain_key};
use crate::observe::{
    spec_active_delta, spec_active_sum, spec_body_count, spec_duration_count,
    spec_entry_observations, spec_outcome_observations, spec_request_observations, ObsModel,
    Outcome,
};

verus! {

/// The net counter change of concatenated observations is the sum of the
/// parts' net changes.
proof fn lemma_active_sum_concat(a: Seq<ObsModel>, b: Seq<ObsModel>)
    ensures
        spec_active_sum(a + b) == spec_active_sum(a) + spec_active_sum(b),
    decreases a.len(),
{
    if a.len() == 0 {
        assert(a + b =~= b);
    } else {
        assert((a + b).drop_first() =~= a.drop_first() + b);
        assert((a + b).first() == a.first());
        lemma_active_sum_concat(a.drop_first(), b);
    }
}

/// Duration observations of concatenated sequences add up.
proof fn lemma_duration_count_concat(a: Seq<ObsModel>, b: Seq<ObsModel>)
    ensures
        spec_duration_count(a + b) == spec_duration_count(a) + spec_duration_count(b),
    decreases a.len(),
{
    if a.len() == 0 {
        assert(a + b =~= b);
    } else {
        assert((a + b).drop_first() =~= a.drop_first() + b);
        assert((a + b).first() == a.first());
        lemma_duration_count_concat(a.drop_first(), b);
    }
}

/// Body-size observations of concatenated sequences add up.
proof fn lemma_body_count_concat(a: Seq<ObsModel>, b: Seq<ObsModel>)
    ensures
        spec_body_count(a + b) == spec_body_count(a) + spec_body_count(b),
    decreases a.len(),
{
    if a.len() == 0 {
        assert(a + b =~= b);
    } else {
        assert((a + b).drop_first() =~= a.drop_first() + b);
        assert((a + b).first() == a.first());
        lemma_body_count_concat(a.drop_first(), b);
    }
}

/// What request entry contributes: `+1` to the counter and no histogram
/// observation.
proof fn lemma_entry_sums(c: RequestCapture)
    ensures
        spec_active_sum(spec_entry_observations(c)) == 1,
        spec_duration_count(spec_entry_observations(c)) == 0,
        spec_body_count(spec_entry_observations(c)) == 0,
{
    let s = spec_entry_observations(c);
    assert(s.drop_first() =~= Seq::<ObsModel>::empty());
    assert(spec_active_sum(Seq::<ObsModel>::empty()) == 0);
    assert(spec_duration_count(Seq::<ObsModel>::empty()) == 0);
    assert(spec_body_count(Seq::<ObsModel>::empty()) == 0);
}

/// What each terminal contributes: `-1` to the counter; one duration
/// observation exactly on success; one body-size observation exactly on
/// success with a captured body size.
proof fn lemma_outcome_sums(c: RequestCapture, o: Outcome)
    ensures
        spec_active_sum(spec_outcome_observations(c, o)) == -1,
        spec_duration_count(spec_outcome_observations(c, o)) == (if o is Succeeded {
            1nat
        } else {
            0nat
        }),
        spec_body_count(spec_outcome_observations(c, o)) == (if o is Succeeded
            && c.request_body_size is Some {
            1nat
        } else {
            0nat
        }),
{
    let s = spec_outcome_observations(c, o);
    let empty = Seq::<ObsModel>::empty();
    let act = ObsModel::Active { delta: -1, labels: c.spec_active_labels() };
    assert(spec_active_sum(empty) == 0);
    assert(spec_duration_count(empty) == 0);
    assert(spec_body_count(empty) == 0);
    assert(seq![act].drop_first() =~= empty);
    assert(spec_active_sum(seq![act]) == -1);
    assert(spec_duration_count(seq![act]) == 0);
    assert(spec_body_count(seq![act]) == 0);
    match o {
        Outcome::Succeeded { status, elapsed_nanos } => {
            let dur = ObsModel::Duration {
                nanos: elapsed_nanos as int,
                labels: c.spec_duration_labels(status),
            };
            match c.request_body_size {
                Some(b) => {
                    let body = ObsModel::Body {
                        bytes: b as int,
                        labels: c.spec_body_size_labels(status),
                    };
                    assert(s =~= seq![dur, body, act]);
                    assert(seq![body, act].drop_first() =~= seq![act]);
                    assert(spec_active_sum(seq![body, act]) == -1);
                    assert(spec_duration_count(seq![body, act]) == 0);
                    assert(spec_body_count(seq![body, act]) == 1);
                    assert(s.drop_first() =~= seq![body, act]);
                    assert(spec_active_sum(s) == -1);
                    assert(spec_duration_count(s) == 1);
                    assert(spec_body_count(s) == 1);
                },
                None => {
                    assert(s =~= seq![dur, act]);
                    assert(s.drop_first() =~= seq![act]);
                    assert(spec_active_sum(s) == -1);
                    assert(spec_duration_count(s) == 1);
                    assert(spec_body_count(s) == 0);
                },
            }
        },
        Outcome::Failed => {
            assert(s =~= seq![act]);
            assert(spec_active_sum(s) == -1);
            assert(spec_duration_count(s) == 0);
            assert(spec_body_count(s) == 0);
        },
        Outcome::Dropped => {
            assert(s =~= seq![act]);
            assert(spec_active_sum(s) == -1);
            assert(spec_duration_count(s) == 0);
            assert(spec_body_count(s) == 0);
        },
    }
}

/// Active-request balance for one request: over its whole life — the entry
/// increment and whichever terminal ran, be it success, error, or drop — the
/// net change to `http.server.active_requests` is zero.
pub proof fn lemma_active_request_balance(c: RequestCapture, o: Outcome)
    ensures
        spec_active_sum(spec_request_observations(c, o)) == 0,
{
    lemma_entry_sums(c);
    lemma_outcome_sums(c, o);
    lemma_active_sum_concat(spec_entry_observations(c), spec_outcome_observations(c, o));
}

/// Everything a batch of requests emits, one request's observations after
/// another's.
pub open spec fn spec_all_observations(requests: Seq<(RequestCapture, Outcome)>) -> Seq<ObsModel>
    decreases requests.len(),
{
    if requests.len() == 0 {
        Seq::<ObsModel>::empty()
    } else {
        spec_request_observations(requests.first().0, requests.first().1)
            + spec_all_observations(requests.drop_first())
    }
}

/// Active-request balance for any finite number of requests: once every one
/// of them has terminated — success, error, or drop — the net change to
/// `http.server.active_requests` is zero, here for the requests' observations
/// laid end to end; [`lemma_concurrent_active_balance_any_order`] extends the
/// balance to every interleaving of them.
pub proof fn lemma_concurrent_active_balance(requests: Seq<(RequestCapture, Outcome)>)
    ensures
        spec_active_sum(spec_all_observations(requests)) == 0,
    decreases requests.len(),
{
    if requests.len() == 0 {
        assert(spec_active_sum(Seq::<ObsModel>::empty()) == 0);
    } else {
        let head = spec_request_observations(requests.first().0, requests.first().1);
        lemma_active_request_balance(requests.first().0, requests.first().1);
        lemma_concurrent_active_balance(requests.drop_first());
        lemma_active_sum_concat(head, spec_all_observations(requests.drop_first()));
    }
}

/// Removing one observation takes exactly its contribution out of the
/// counter's net change.
proof fn lemma_active_sum_remove(s: Seq<ObsModel>, i: int)
    requires
        0 <= i < s.len(),
    ensures
        spec_active_sum(s.remove(i)) == spec_active_sum(s) - spec_active_delta(s[i]),
    decreases s.len(),
{
    if i == 0 {
        assert(s.remove(0) =~= s.drop_first());
    } else {
        assert(s.remove(i).drop_first() =~= s.drop_first().remove(i - 1));
        assert(s.remove(i).first() == s.first());
        lemma_active_sum_remove(s.drop_first(), i - 1);
    }
}

/// The counter's net change is the same for any two orders of the same
/// additions.
pub proof fn lemma_active_sum_permutation(a: Seq<ObsModel>, b: Seq<ObsModel>)
    requires
        a.to_multiset() == b.to_multiset(),
    ensures
        spec_active_sum(a) == spec_active_sum(b),
    decreases a.len(),
{
    broadcast use vstd::seq_lib::group_to_multiset_ensures;

    if a.len() == 0 {
        assert(b.to_multiset().len() == 0);
        assert(b.len() == 0);
    } else {
        let x = a.first();
        assert(a[0] == x);
        assert(a.contains(x));
        assert(a.to_multiset().count(x) > 0);
        assert(b.to_multiset().count(x) > 0);
        assert(b.contains(x));
        let j = choose|j: int| 0 <= j < b.len() && b[j] == x;
        assert(a.remove(0) =~= a.drop_first());
        assert(a.remove(0).to_multiset() =~= a.to_multiset().remove(a[0]));
        assert(b.remove(j).to_multiset() =~= b.to_multiset().remove(b[j]));
        lemma_active_sum_permutation(a.drop_first(), b.remove(j));
        lemma_active_sum_remove(b, j);
    }
}

/// Active-request balance under any schedule: any interleaving of the
/// observations that a batch of requests emits — the same additions, in
/// whatever order concurrency delivers them — nets to zero.
pub proof fn lemma_concurrent_active_balance_any_order(
    requests: Seq<(RequestCapture, Outcome)>,
    interleaving: Seq<ObsModel>,
)
    requires
        interleaving.to_multiset() == spec_all_observations(requests).to_multiset(),
    ensures
        spec_active_sum(interleaving) == 0,
{
    lemma_concurrent_active_balance(requests);
    lemma_active_sum_permutation(interleaving, spec_all_observations(requests));
}

/// Single record per request: a successful request yields exactly one
/// duration observation, and exactly one body-size observation precisely
/// when a `Content-Length` value was captured.
pub proof fn lemma_single_record_per_request(c: RequestCapture, status: u16, nanos: u128)
    ensures
        spec_duration_count(
            spec_request_observations(c, Outcome::Succeeded { status, elapsed_nanos: nanos }),
        ) == 1,
        spec_body_count(
            spec_request_observations(c, Outcome::Succeeded { status, elapsed_nanos: nanos }),
        ) == (if c.request_body_size is Some {
            1nat
        } else {
            0nat
        }),
{
    let o = Outcome::Succeeded { status, elapsed_nanos: nanos };
    lemma_entry_sums(c);
    lemma_outcome_sums(c, o);
    lemma_duration_count_concat(spec_entry_observations(c), spec_outcome_observations(c, o));
    lemma_body_count_concat(spec_entry_observations(c), spec_outcome_observations(c, o));
}

/// No record on error: a request whose inner handler yields an error records
/// neither duration nor body size, and its counter change still balances.
pub proof fn lemma_no_record_on_error(c: RequestCapture)
    ensures
        spec_duration_count(spec_request_observations(c, Outcome::Failed)) == 0,
        spec_body_count(spec_request_observations(c, Outcome::Failed)) == 0,
        spec_active_sum(spec_request_observations(c, Outcome::Failed)) == 0,
{
    lemma_entry_sums(c);
    lemma_outcome_sums(c, Outcome::Failed);
    lemma_duration_count_concat(spec_entry_observations(c), spec_outcome_observations(c, Outcome::Failed));
    lemma_body_count_concat(spec_entry_observations(c), spec_outcome_observations(c, Outcome::Failed));
    lemma_active_request_balance(c, Outcome::Failed);
}

/// No record on drop: a request whose recorder is dropped before completion
/// records neither duration nor body size, and its counter change still
/// balances.
pub proof fn lemma_no_record_on_drop(c: RequestCapture)
    ensures
        spec_duration_count(spec_request_observations(c, Outcome::Dropped)) == 0,
        spec_body_count(spec_request_observations(c, Outcome::Dropped)) == 0,
        spec_active_sum(spec_request_observations(c, Outcome::Dropped)) == 0,
{
    lemma_entry_sums(c);
    lemma_outcome_sums(c, Outcome::Dropped);
    lemma_duration_count_concat(spec_entry_observations(c), spec_outcome_observations(c, Outcome::Dropped));
    lemma_body_count_concat(spec_entry_observations(c), spec_outcome_observations(c, Outcome::Dropped));
    lemma_active_request_balance(c, Outcome::Dropped);
}

/// Label completeness: every duration observation of a successful request
/// carries the method, status code, protocol name `"http"`, protocol version
/// and scheme labels, plus `http.route` exactly when a route was matched.
pub proof fn lemma_duration_label_completeness(c: RequestCapture, status: u16, nanos: u128)
    requires
        c.wf(),
    ensures
        ({
            let s = spec_request_observations(c, Outcome::Succeeded { status, elapsed_nanos: nanos });
            forall|i: int| 0 <= i < s.len() && (#[trigger] s[i]) is Duration
                ==> s[i]->Duration_labels == c.spec_duration_labels(status)
        }),
        ({
            let ls = c.spec_duration_labels(status);
            &&& spec_labels_contain(ls, "http.request.method"@, c.method@)
            &&& spec_labels_contain(ls, "http.response.status_code"@, spec_dec_str(status as nat))
            &&& spec_labels_contain(ls, "network.protocol.name"@, "http"@)
            &&& spec_labels_contain(ls, "network.protocol.version"@, c.network_protocol_version@)
            &&& spec_labels_contain(ls, "url.scheme"@, c.url_scheme@)
            &&& (c.route is Some <==> spec_labels_contain_key(ls, "http.route"@))
            &&& (c.route matches Some(r) ==> spec_labels_contain(ls, "http.route"@, r@))
        }),
{
    let o = Outcome::Succeeded { status, elapsed_nanos: nanos };
    let s = spec_request_observations(c, o);
    let ls = c.spec_duration_labels(status);
    let ent = ObsModel::Active { delta: 1, labels: c.spec_active_labels() };
    let dur = ObsModel::Duration { nanos: nanos as int, labels: ls };
    let act = ObsModel::Active { delta: -1, labels: c.spec_active_labels() };
    match c.request_body_size {
        Some(b) => {
            let body = ObsModel::Body { bytes: b as int, labels: c.spec_body_size_labels(status) };
            assert(s =~= seq![ent, dur, body, act]);
        },
        None => {
            assert(s =~= seq![ent, dur, act]);
        },
    }
    assert(ls[0] == ("http.response.status_code"@, spec_dec_str(status as nat)));
    assert(ls[1] == ("http.request.method"@, c.method@));
    assert(ls[2] == ("network.protocol.name"@, c.network_protocol_name@));
    assert(ls[3] == ("network.protocol.version"@, c.network_protocol_version@));
    assert(ls[4] == ("url.scheme"@, c.url_scheme@));
    match c.route {
        Some(r) => {
            assert(ls[5] == ("http.route"@, r@));
            assert(ls[5].0 == "http.route"@);
            assert(spec_labels_contain_key(ls, "http.route"@));
        },
        None => {
            assert(ls.len() == 5);
            proof_label_keys_distinct();
            assert forall|i: int| 0 <= i < ls.len() implies #[trigger] ls[i].0 != "http.route"@ by {
            }
        },
    }
}

/// The five unconditional duration label keys all differ from `http.route`.
proof fn proof_label_keys_distinct()
    ensures
        "http.response.status_code"@ != "http.route"@,
        "http.request.method"@ != "http.route"@,
        "network.protocol.name"@ != "http.route"@,
        "network.protocol.version"@ != "http.route"@,
        "url.scheme"@ != "http.route"@,
{
    reveal_strlit("http.response.status_code");
    reveal_strlit("http.request.method");
    reveal_strlit("network.protocol.name");
    reveal_strlit("network.protocol.version");
    reveal_strlit("url.scheme");
    reveal_strlit("http.route");
    assert("http.response.status_code"@.len() != "http.route"@.len());
    assert("http.request.method"@.len() != "http.route"@.len());
    assert("network.protocol.name"@.len() != "http.route"@.len());
    assert("network.protocol.version"@.len() != "http.route"@.len());
    assert("url.scheme"@[0] != "http.route"@[0]);
}

/// Label symmetry for active-requests: whatever the outcome, the `+1` at
/// entry and the `-1` at the terminal carry the same label set, and no other
/// counter addition is ever emitted for the request.
pub proof fn lemma_active_label_symmetry(c: RequestCapture, o: Outcome)
    ensures
        ({
            let s = spec_request_observations(c, o);
            &&& s.first() == ObsModel::Active { delta: 1, labels: c.spec_active_labels() }
            &&& s.last() == ObsModel::Active { delta: -1, labels: c.spec_active_labels() }
            &&& forall|i: int| 0 <= i < s.len() && (#[trigger] s[i]) is Active
                ==> s[i]->Active_labels == c.spec_active_labels()
        }),
{
    let s = spec_request_observations(c, o);
    let ent = ObsModel::Active { delta: 1, labels: c.spec_active_labels() };
    let act = ObsModel::Active { delta: -1, labels: c.spec_active_labels() };
    match o {
        Outcome::Succeeded { status, elapsed_nanos } => {
            let dur = ObsModel::Duration {
                nanos: elapsed_nanos as int,
                labels: c.spec_duration_labels(status),
            };
            match c.request_body_size {
                Some(b) => {
                    let body = ObsModel::Body {
                        bytes: b as int,
                        labels: c.spec_body_size_labels(status),
                    };
                    assert(s =~= seq![ent, dur, body, act]);
                },
                None => {
                    assert(s =~= seq![ent, dur, act]);
                },
            }
        },
        Outcome::Failed => {
            assert(s =~= seq![ent, act]);
        },
        Outcome::Dropped => {
            assert(s =~= seq![ent, act]);
        },
    }
}

/// Monotonic duration: every duration observation a request emits is
/// non-negative — the value is a whole count of elapsed nanoseconds.
pub proof fn lemma_duration_nonneg(c: RequestCapture, o: Outcome)
    ensures
        forall|i: int|
            0 <= i < spec_request_observations(c, o).len()
                && (#[trigger] spec_request_observations(c, o)[i]) is Duration
                ==> spec_request_observations(c, o)[i]->Duration_nanos >= 0,
{
    let s = spec_request_observations(c, o);
    let ent = ObsModel::Active { delta: 1, labels: c.spec_active_labels() };
    let act = ObsModel::Active { delta: -1, labels: c.spec_active_labels() };
    match o {
        Outcome::Succeeded { status, elapsed_nanos } => {
            let dur = ObsModel::Duration {
                nanos: elapsed_nanos as int,
                labels: c.spec_duration_labels(status),
            };
            match c.request_body_size {
                Some(b) => {
                    let body = ObsModel::Body {
                        bytes: b as int,
                        labels: c.spec_body_size_labels(status),
                    };
                    assert(s =~= seq![ent, dur, body, act]);
                },
                None => {
                    assert(s =~= seq![ent, dur, act]);
                },
            }
        },
        Outcome::Failed => {
            assert(s =~= seq![ent, act]);
        },
        Outcome::Dropped => {
            assert(s =~= seq![ent, act]);
        },
    }
}

} // verus!
