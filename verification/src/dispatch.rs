//! The ledger of prediction requests that are in flight.
//!
//! A click submits a request, which gets an identity of its own. Scoring runs
//! elsewhere and may take long; when it ends, the outcome is handed back under
//! the identity of its request. The ledger pairs each outcome with the
//! coordinate it was asked for and accepts one outcome per request: a second
//! one, or one for an identity that was never issued, is turned away.

use std::collections::HashMap;
use vstd::prelude::*;
use vstd::std_specs::hash::group_hash_axioms;

verus! {

broadcast use group_hash_axioms;

/// A point on the globe, in millionths of a degree.
#[derive(Clone, Copy, Debug, PartialEq, Eq)]
pub struct GeoCoordinate {
    pub longitude: i64,
    pub latitude: i64,
}

/// Why scoring gave no score.
#[derive(Debug, PartialEq, Eq)]
pub enum ScoringError {
    /// No model is loaded to make a prediction with.
    NoModel,
    /// The scoring backend failed; the text describes the fault.
    Backend(String),
}

/// A request for the score of one coordinate.
#[derive(Clone, Copy, Debug, PartialEq, Eq)]
pub struct PredictionRequest {
    pub id: u64,
    pub coord: GeoCoordinate,
}

/// The outcome of one request: a score in millionths, or the reason why
/// there is none.
#[derive(Debug, PartialEq, Eq)]
pub struct PredictionResult {
    pub request: PredictionRequest,
    pub outcome: Result<i64, ScoringError>,
}

/// The mathematical content of a [`Dispatcher`].
pub struct Ledger {
    /// The identity that the next request gets. All smaller ones were issued.
    pub next_id: u64,
    /// The requests without an outcome yet, by identity.
    pub pending: Map<u64, GeoCoordinate>,
}

impl Ledger {
    /// The ledger before any request.
    pub open spec fn empty() -> Ledger {
        Ledger { next_id: 0, pending: Map::empty() }
    }

    /// Only issued identities are pending, and finitely many.
    pub open spec fn valid(self) -> bool {
        &&& self.pending.dom().finite()
        &&& forall|id: u64| self.pending.contains_key(id) ==> id < self.next_id
    }

    /// Whether another request can get an identity.
    pub open spec fn has_room(self) -> bool {
        self.next_id < u64::MAX
    }

    /// The ledger after a request for `coord` was submitted.
    pub open spec fn submit(self, coord: GeoCoordinate) -> Ledger {
        Ledger {
            next_id: (self.next_id + 1) as u64,
            pending: self.pending.insert(self.next_id, coord),
        }
    }

    /// The ledger after an outcome arrived under the identity `id`.
    pub open spec fn complete(self, id: u64) -> Ledger {
        Ledger { next_id: self.next_id, pending: self.pending.remove(id) }
    }

    /// The ledger after requests for all of `coords` were submitted in order.
    pub open spec fn submit_all(self, coords: Seq<GeoCoordinate>) -> Ledger
        decreases coords.len(),
    {
        if coords.len() == 0 {
            self
        } else {
            self.submit_all(coords.drop_last()).submit(coords.last())
        }
    }

    /// The ledger after outcomes arrived under the identities `ids`, in
    /// that order.
    pub open spec fn complete_all(self, ids: Seq<u64>) -> Ledger
        decreases ids.len(),
    {
        if ids.len() == 0 {
            self
        } else {
            self.complete_all(ids.drop_last()).complete(ids.last())
        }
    }

    /// How many of the outcomes that arrive under `ids`, in that order, are
    /// accepted.
    pub open spec fn accepted(self, ids: Seq<u64>) -> nat
        decreases ids.len(),
    {
        if ids.len() == 0 {
            0
        } else {
            let before = self.complete_all(ids.drop_last());
            let earlier = self.accepted(ids.drop_last());
            if before.pending.contains_key(ids.last()) {
                earlier + 1
            } else {
                earlier
            }
        }
    }

    /// Submitting and completing keep the ledger valid.
    pub proof fn lemma_operations_keep_valid(self, coord: GeoCoordinate, id: u64)
        requires
            self.valid(),
        ensures
            self.has_room() ==> self.submit(coord).valid(),
            self.complete(id).valid(),
    {
    }

    /// A new request gets an identity that no other request has or had, is
    /// pending under it with its own coordinate, and leaves the other pending
    /// requests as they were.
    pub proof fn lemma_submit_is_fresh(self, coord: GeoCoordinate)
        requires
            self.valid(),
            self.has_room(),
        ensures
            !self.pending.contains_key(self.next_id),
            self.submit(coord).pending.contains_key(self.next_id),
            self.submit(coord).pending[self.next_id] == coord,
            forall|id: u64|
                self.pending.contains_key(id) ==> self.submit(coord).pending.contains_key(id)
                    && self.submit(coord).pending[id] == self.pending[id],
            self.submit(coord).pending.len() == self.pending.len() + 1,
    {
    }

    /// One outcome per request: once an outcome was accepted under `id`, no
    /// other is, whatever was submitted or completed in between.
    pub proof fn lemma_completed_stays_completed(
        self,
        id: u64,
        coords: Seq<GeoCoordinate>,
        ids: Seq<u64>,
    )
        requires
            self.valid(),
            self.pending.contains_key(id),
            self.next_id + coords.len() <= u64::MAX,
        ensures
            !self.complete(id).pending.contains_key(id),
            !self.complete(id).submit_all(coords).pending.contains_key(id),
            !self.complete(id).submit_all(coords).complete_all(ids).pending.contains_key(id),
    {
        let done = self.complete(id);
        done.lemma_submit_all(coords);
        let more = done.submit_all(coords);
        more.lemma_complete_all(ids);
    }

    /// `coords.len()` submissions issue that many consecutive identities,
    /// each pending with its own coordinate, beside what was pending before.
    pub proof fn lemma_submit_all(self, coords: Seq<GeoCoordinate>)
        requires
            self.valid(),
            self.next_id + coords.len() <= u64::MAX,
        ensures
            self.submit_all(coords).valid(),
            self.submit_all(coords).next_id == self.next_id + coords.len(),
            self.submit_all(coords).pending.len() == self.pending.len() + coords.len(),
            forall|id: u64|
                #![trigger self.submit_all(coords).pending.contains_key(id)]
                #![trigger self.submit_all(coords).pending[id]]
                self.next_id <= id < self.next_id + coords.len() ==> {
                    &&& self.submit_all(coords).pending.contains_key(id)
                    &&& self.submit_all(coords).pending[id] == coords[id - self.next_id]
                },
            forall|id: u64|
                id < self.next_id ==> (self.submit_all(coords).pending.contains_key(id)
                    <==> self.pending.contains_key(id)),
            forall|id: u64|
                self.pending.contains_key(id) ==> self.submit_all(coords).pending[id]
                    == self.pending[id],
        decreases coords.len(),
    {
        if coords.len() > 0 {
            let init = coords.drop_last();
            self.lemma_submit_all(init);
            let before = self.submit_all(init);
            before.lemma_submit_is_fresh(coords.last());
            let after = before.submit(coords.last());
            assert(self.submit_all(coords) == after);
            assert forall|id: u64|
                self.next_id <= id < self.next_id + coords.len() implies after.pending.contains_key(
                id,
            ) && after.pending[id] == coords[id - self.next_id] by {
                if id < before.next_id {
                    assert(before.pending.contains_key(id));
                    assert(init[id - self.next_id] == coords[id - self.next_id]);
                }
            }
        }
    }

    /// Completions leave issued identities issued, remove exactly the
    /// identities named, and never bring a request back.
    pub proof fn lemma_complete_all(self, ids: Seq<u64>)
        requires
            self.valid(),
        ensures
            self.complete_all(ids).valid(),
            self.complete_all(ids).next_id == self.next_id,
            forall|id: u64|
                #![trigger self.pending.contains_key(id)]
                #![trigger ids.contains(id)]
                self.complete_all(ids).pending.contains_key(id) <==> self.pending.contains_key(
                    id,
                ) && !ids.contains(id),
            forall|id: u64|
                #![trigger self.pending[id]]
                self.complete_all(ids).pending.contains_key(id) ==> self.complete_all(
                    ids,
                ).pending[id] == self.pending[id],
        decreases ids.len(),
    {
        if ids.len() > 0 {
            let init = ids.drop_last();
            self.lemma_complete_all(init);
            let before = self.complete_all(init);
            let after = before.complete(ids.last());
            assert(self.complete_all(ids) == after);
            assert forall|id: u64| after.pending.contains_key(id) <==> self.pending.contains_key(
                id,
            ) && !ids.contains(id) by {
                assert(before.pending.contains_key(id) <==> self.pending.contains_key(id)
                    && !init.contains(id));
                if id == ids.last() {
                    assert(ids[ids.len() - 1] == id);
                } else if init.contains(id) {
                    let j = choose|j: int| 0 <= j < init.len() && init[j] == id;
                    assert(ids[j] == id);
                } else if ids.contains(id) {
                    let j = choose|j: int| 0 <= j < ids.len() && ids[j] == id;
                    assert(init[j] == id);
                }
            }
        }
    }

    /// Every accepted outcome settles one pending request: the number of
    /// outcomes accepted and the number of requests still pending add up to
    /// the number that was pending. So no request gets two outcomes, and once
    /// nothing is pending every request has got exactly one.
    pub proof fn lemma_accepted_settles_pending(self, ids: Seq<u64>)
        requires
            self.valid(),
        ensures
            self.accepted(ids) + self.complete_all(ids).pending.len() == self.pending.len(),
        decreases ids.len(),
    {
        if ids.len() > 0 {
            let init = ids.drop_last();
            self.lemma_accepted_settles_pending(init);
            self.lemma_complete_all(init);
        }
    }

    /// Every request gets exactly one result: when outcomes arrive for the
    /// requests of `coords`, in any order and however often, as many are
    /// accepted as requests were submitted, and the ledger is back to what
    /// was pending before.
    pub proof fn lemma_every_request_gets_one_result(
        self,
        coords: Seq<GeoCoordinate>,
        ids: Seq<u64>,
    )
        requires
            self.valid(),
            self.next_id + coords.len() <= u64::MAX,
            forall|id: u64|
                #[trigger] ids.contains(id) <==> self.next_id <= id < self.next_id + coords.len(),
        ensures
            self.submit_all(coords).accepted(ids) == coords.len(),
            self.submit_all(coords).complete_all(ids).pending == self.pending,
    {
        self.lemma_submit_all(coords);
        let submitted = self.submit_all(coords);
        submitted.lemma_complete_all(ids);
        submitted.lemma_accepted_settles_pending(ids);
        let settled = submitted.complete_all(ids);
        assert forall|id: u64| settled.pending.contains_key(id) <==> self.pending.contains_key(
            id,
        ) by {
            assert(settled.pending.contains_key(id) <==> submitted.pending.contains_key(id)
                && !ids.contains(id));
        }
        assert(settled.pending =~= self.pending);
    }
}

/// The ledger of a running application.
pub struct Dispatcher {
    next_id: u64,
    pending: HashMap<u64, GeoCoordinate>,
}

impl View for Dispatcher {
    type V = Ledger;

    closed spec fn view(&self) -> Ledger {
        Ledger { next_id: self.next_id, pending: self.pending@ }
    }
}

impl Dispatcher {
    #[verifier::type_invariant]
    pub closed spec fn well_formed(self) -> bool {
        self@.valid()
    }

    /// A ledger without requests.
    pub fn new() -> (d: Dispatcher)
        ensures
            d@ == Ledger::empty(),
            d@.valid(),
    {
        let d = Dispatcher { next_id: 0, pending: HashMap::new() };
        assert(d@.pending =~= Map::<u64, GeoCoordinate>::empty());
        d
    }

    /// Number of requests without an outcome yet.
    pub fn in_flight(&self) -> (n: usize)
        ensures
            n == self@.pending.len(),
            self@.valid(),
    {
        proof {
            use_type_invariant(self);
        }
        self.pending.len()
    }

    /// Whether the request `id` is without an outcome yet.
    pub fn is_pending(&self, id: u64) -> (p: bool)
        ensures
            p == self@.pending.contains_key(id),
    {
        self.pending.contains_key(&id)
    }

    /// Enters a request for `coord` and returns it with its identity.
    /// Returns `None`, and changes nothing, only when all identities are
    /// used up.
    pub fn submit(&mut self, coord: GeoCoordinate) -> (r: Option<PredictionRequest>)
        ensures
            final(self)@.valid(),
            match r {
                Some(request) => {
                    &&& old(self)@.has_room()
                    &&& request == (PredictionRequest { id: old(self)@.next_id, coord })
                    &&& final(self)@ == old(self)@.submit(coord)
                },
                None => !old(self)@.has_room() && final(self)@ == old(self)@,
            },
    {
        proof {
            use_type_invariant(&*self);
        }
        if self.next_id == u64::MAX {
            return None;
        }
        let id = self.next_id;
        let mut pending = HashMap::new();
        std::mem::swap(&mut pending, &mut self.pending);
        pending.insert(id, coord);
        *self = Dispatcher { next_id: id + 1, pending };
        Some(PredictionRequest { id, coord })
    }

    /// Takes the outcome of the request `id`. Returns it paired with the
    /// request if that request is pending, which it then no longer is;
    /// returns `None`, and changes nothing, if it is not.
    pub fn complete(&mut self, id: u64, outcome: Result<i64, ScoringError>) -> (r: Option<
        PredictionResult,
    >)
        ensures
            final(self)@.valid(),
            match r {
                Some(result) => {
                    &&& old(self)@.pending.contains_key(id)
                    &&& result.request == (PredictionRequest {
                        id,
                        coord: old(self)@.pending[id],
                    })
                    &&& result.outcome == outcome
                    &&& final(self)@ == old(self)@.complete(id)
                },
                None => !old(self)@.pending.contains_key(id) && final(self)@ == old(self)@,
            },
    {
        proof {
            use_type_invariant(&*self);
        }
        let next_id = self.next_id;
        let mut pending = HashMap::new();
        std::mem::swap(&mut pending, &mut self.pending);
        let found = pending.remove(&id);
        assert(pending@ =~= old(self)@.pending.remove(id));
        *self = Dispatcher { next_id, pending };
        match found {
            Some(coord) => Some(
                PredictionResult { request: PredictionRequest { id, coord }, outcome },
            ),
            None => {
                assert(self@.pending =~= old(self)@.pending);
                None
            },
        }
    }
}

} // verus!
