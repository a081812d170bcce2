//! The per-request lifecycle: one increment at entry, one terminal decrement,
//! and at most one recording of duration and body size.

use vstd::prelude::*;
use crate::capture::RequestCapture;
use crate::instruments::HTTPMetricsLayerState;
use crate::observe::{
    decrement_observations, entry_observations, lemma_duration_only_none,
    lemma_duration_only_success, spec_entry_observations, spec_outcome_observations,
    success_observations, ObsModel, Observation, Outcome,
};

verus! {

/// Request-scoped recorder awaiting the inner handler's completion.
///
/// `HTTPMetricsLayerState::start_request` creates it with the increment
/// already emitted; exactly one of the completion methods then emits the
/// matching decrement, after which the recorder is finished and every further
/// call does nothing. Callers whose completion object can be dropped
/// mid-flight call [`DeferredRecorder::finish_dropped`] from their drop path,
/// so the decrement also happens on cancellation.
pub struct DeferredRecorder {
    /// The request attributes captured at entry.
    capture: RequestCapture,
    finished: bool,
}

impl DeferredRecorder {
    /// The request attributes captured at entry.
    pub closed spec fn spec_capture(&self) -> RequestCapture {
        self.capture
    }

    /// Whether a terminal transition has already run.
    pub closed spec fn spec_finished(&self) -> bool {
        self.finished
    }

    /// See [`DeferredRecorder::spec_finished`].
    pub fn is_finished(&self) -> (r: bool)
        ensures
            r == self.spec_finished(),
    {
        self.finished
    }

    /// Records duration (handed back for the caller's seconds histogram) and
    /// body size, and decrements active-requests, for a request whose inner
    /// handler produced a response with the given status. Does nothing when
    /// already finished.
    pub fn complete_success(&mut self, state: &HTTPMetricsLayerState, status: u16) -> (pending:
        Vec<Observation>)
        ensures
            final(self).spec_capture() == old(self).spec_capture(),
            final(self).spec_finished(),
            old(self).spec_finished() ==> *final(self) == *old(self) && pending.deep_view()
                == Seq::<ObsModel>::empty(),
            !old(self).spec_finished() ==> ({
                &&& pending.deep_view().len() == 1
                &&& pending.deep_view()[0] is Duration
                &&& pending.deep_view()[0]->Duration_labels == old(self).spec_capture().spec_duration_labels(status)
                &&& pending.deep_view()[0]->Duration_nanos >= 0
            }),
    {
        if self.finished {
            let pending: Vec<Observation> = Vec::new();
            proof {
                assert(pending.deep_view() =~= Seq::<ObsModel>::empty());
            }
            return pending;
        }
        let nanos = self.capture.elapsed_nanoseconds();
        let obs = success_observations(&self.capture, status, nanos);
        let pending = state.apply_observations(obs);
        self.finished = true;
        proof {
            lemma_duration_only_success(self.capture, status, nanos);
        }
        pending
    }

    /// Decrements active-requests for a request whose inner handler yielded
    /// an error; duration and body size are not recorded. Does nothing when
    /// already finished.
    pub fn complete_failure(&mut self, state: &HTTPMetricsLayerState)
        ensures
            final(self).spec_capture() == old(self).spec_capture(),
            final(self).spec_finished(),
            old(self).spec_finished() ==> *final(self) == *old(self),
    {
        self.decrement_if_pending(state);
    }

    /// Decrements active-requests for a request whose recorder is being
    /// dropped before the inner handler completed; duration and body size are
    /// not recorded. Safe to call on every drop: does nothing when already
    /// finished.
    pub fn finish_dropped(&mut self, state: &HTTPMetricsLayerState)
        ensures
            final(self).spec_capture() == old(self).spec_capture(),
            final(self).spec_finished(),
            old(self).spec_finished() ==> *final(self) == *old(self),
    {
        self.decrement_if_pending(state);
    }

    /// The shared terminal transition of the two no-response exits.
    fn decrement_if_pending(&mut self, state: &HTTPMetricsLayerState)
        ensures
            final(self).spec_capture() == old(self).spec_capture(),
            final(self).spec_finished(),
            old(self).spec_finished() ==> *final(self) == *old(self),
    {
        if !self.finished {
            let obs = decrement_observations(&self.capture);
            proof {
                lemma_duration_only_none(spec_outcome_observations(self.capture, Outcome::Failed));
            }
            let _pending = state.apply_observations(obs);
            self.finished = true;
        }
    }
}

impl HTTPMetricsLayerState {
    /// Request entry: adds `+1` to active-requests under the common labels
    /// and returns the deferred recorder bound to this capture.
    pub fn start_request(&self, capture: RequestCapture) -> (r: DeferredRecorder)
        ensures
            r.spec_capture() == capture,
            !r.spec_finished(),
    {
        let obs = entry_observations(&capture);
        proof {
            lemma_duration_only_none(spec_entry_observations(capture));
        }
        let _pending = self.apply_observations(obs);
        DeferredRecorder { capture, finished: false }
    }
}

} // verus!
