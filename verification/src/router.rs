//! The account-write router: routes bind a set of watched accounts to a
//! handler, and an incoming write goes to the handlers of the routes that
//! watch its account.

use crate::ids::{contains_id, distinct_ids, AccountId};
use vstd::prelude::*;

verus! {

/// A notice that an account's data has changed.
#[derive(Clone, Debug, PartialEq, Eq)]
pub struct AccountWriteEvent {
    pub account_id: AccountId,
    pub slot: u64,
    pub write_version: u64,
    pub payload: Vec<u8>,
}

/// A subscription: the accounts to watch, the handler to call for them, and
/// the heartbeat interval in milliseconds, where zero means no heartbeat.
pub struct Route<H> {
    matched: Vec<AccountId>,
    handler: H,
    timeout_interval: u64,
}

impl<H> Route<H> {
    #[verifier::type_invariant]
    spec fn distinct(self) -> bool {
        self.matched@.no_duplicates()
    }

    /// The accounts that the route watches.
    pub closed spec fn matched_ids(&self) -> Set<AccountId> {
        self.matched@.to_set()
    }

    /// The handler that the route calls.
    pub closed spec fn spec_handler(&self) -> H {
        self.handler
    }

    /// The heartbeat interval; zero where the route has no heartbeat.
    pub closed spec fn spec_timeout_interval(&self) -> u64 {
        self.timeout_interval
    }

    /// A route that watches the given accounts. An account named twice is
    /// watched once.
    pub fn new(ids: &Vec<AccountId>, handler: H, timeout_interval: u64) -> (route: Route<H>)
        ensures
            route.matched_ids() == ids@.to_set(),
            route.spec_handler() == handler,
            route.spec_timeout_interval() == timeout_interval,
    {
        Route { matched: distinct_ids(ids), handler, timeout_interval }
    }

    /// Tells whether the route watches `id`.
    pub fn matches(&self, id: &AccountId) -> (hit: bool)
        ensures
            hit == self.matched_ids().contains(*id),
    {
        contains_id(&self.matched, id)
    }

    /// The number of accounts that the route watches.
    pub fn matched_count(&self) -> (count: usize)
        ensures
            count == self.matched_ids().len(),
            self.matched_ids().finite(),
    {
        proof {
            use_type_invariant(self);
            self.matched@.unique_seq_to_set();
        }
        self.matched.len()
    }

    /// The handler that the route calls.
    pub fn handler(&self) -> (handler: &H)
        ensures
            *handler == self.spec_handler(),
    {
        &self.handler
    }

    /// The heartbeat interval; zero where the route has no heartbeat.
    pub fn timeout_interval(&self) -> (interval: u64)
        ensures
            interval == self.spec_timeout_interval(),
    {
        self.timeout_interval
    }

    /// Tells whether the handler is owed a heartbeat call: the route has a
    /// heartbeat, and at least its interval has passed since the last call.
    pub fn heartbeat_due(&self, elapsed: u64) -> (due: bool)
        ensures
            due == (self.spec_timeout_interval() != 0 && elapsed
                >= self.spec_timeout_interval()),
    {
        self.timeout_interval != 0 && elapsed >= self.timeout_interval
    }
}

/// The routes of the process, in the order in which they were registered.
pub struct Router<H> {
    pub routes: Vec<Route<H>>,
}

impl<H> Router<H> {
    /// The route at `i` watches `id`.
    pub open spec fn route_matches(&self, i: int, id: AccountId) -> bool {
        0 <= i < self.routes@.len() && self.routes@[i].matched_ids().contains(id)
    }

    /// Among the first `n` routes, those that watch `id`, in ascending order.
    pub open spec fn matching_among(&self, n: nat, id: AccountId) -> Seq<usize>
        decreases n,
    {
        if n == 0 {
            Seq::empty()
        } else if self.route_matches(n - 1, id) {
            self.matching_among((n - 1) as nat, id).push((n - 1) as usize)
        } else {
            self.matching_among((n - 1) as nat, id)
        }
    }

    /// The routes whose handlers a write to `id` goes to: each route that
    /// watches `id`, once, in the order of registration.
    pub open spec fn matching(&self, id: AccountId) -> Seq<usize> {
        self.matching_among(self.routes@.len(), id)
    }

    /// A router over the given routes.
    pub fn new(routes: Vec<Route<H>>) -> (router: Router<H>)
        ensures
            router.routes == routes,
    {
        Router { routes }
    }

    /// The routes whose handlers are to be called for a write, in order. The
    /// write itself is handed on as it came.
    pub fn route(&self, write: &AccountWriteEvent) -> (hits: Vec<usize>)
        ensures
            hits@ == self.matching(write.account_id),
    {
        let mut hits: Vec<usize> = Vec::new();
        let mut i: usize = 0;
        while i < self.routes.len()
            invariant
                i <= self.routes.len(),
                hits@ == self.matching_among(i as nat, write.account_id),
            decreases self.routes.len() - i,
        {
            if self.routes[i].matches(&write.account_id) {
                hits.push(i);
            }
            i += 1;
        }
        hits
    }

    /// What `matching_among` lists: exactly the routes below `n` that watch
    /// `id`, each once, in ascending order.
    pub proof fn lemma_matching_among(&self, n: nat, id: AccountId)
        requires
            n <= self.routes@.len(),
        ensures
            forall|k: int|
                0 <= k < self.matching_among(n, id).len() ==> (#[trigger] self.matching_among(
                    n,
                    id,
                )[k]) < n && self.route_matches(self.matching_among(n, id)[k] as int, id),
            forall|a: int, b: int|
                0 <= a < b < self.matching_among(n, id).len() ==> self.matching_among(n, id)[a]
                    < self.matching_among(n, id)[b],
            forall|i: int|
                0 <= i < n && self.route_matches(i, id) ==> self.matching_among(n, id).contains(
                    i as usize,
                ),
        decreases n,
    {
        if n > 0 {
            let rest = self.matching_among((n - 1) as nat, id);
            let all = self.matching_among(n, id);
            self.lemma_matching_among((n - 1) as nat, id);
            assert(n <= self.routes.len() <= usize::MAX);
            assert forall|i: int| 0 <= i < n && self.route_matches(i, id) implies all.contains(
                i as usize,
            ) by {
                if i < n - 1 {
                    let k = choose|k: int| 0 <= k < rest.len() && rest[k] == i as usize;
                    assert(all[k] == i as usize);
                } else {
                    assert(all[all.len() - 1] == i as usize);
                }
            }
        }
    }

    /// A write to an account that no route watches reaches no handler.
    pub proof fn lemma_unmatched_write_reaches_no_handler(&self, id: AccountId)
        requires
            forall|i: int| 0 <= i < self.routes@.len() ==> !self.route_matches(i, id),
        ensures
            self.matching(id) == Seq::<usize>::empty(),
    {
        self.lemma_none_among(self.routes@.len(), id);
    }

    proof fn lemma_none_among(&self, n: nat, id: AccountId)
        requires
            n <= self.routes@.len(),
            forall|i: int| 0 <= i < n ==> !self.route_matches(i, id),
        ensures
            self.matching_among(n, id) == Seq::<usize>::empty(),
        decreases n,
    {
        if n > 0 {
            self.lemma_none_among((n - 1) as nat, id);
        }
    }

    /// A write to an account that exactly one route watches reaches that
    /// route's handler, once, and no other.
    pub proof fn lemma_single_match_reaches_one_handler(&self, id: AccountId, route: int)
        requires
            self.route_matches(route, id),
            forall|i: int| self.route_matches(i, id) ==> i == route,
        ensures
            self.matching(id) == seq![route as usize],
    {
        self.lemma_single_among(self.routes@.len(), id, route);
    }

    proof fn lemma_single_among(&self, n: nat, id: AccountId, route: int)
        requires
            n <= self.routes@.len(),
            self.route_matches(route, id),
            forall|i: int| self.route_matches(i, id) ==> i == route,
        ensures
            self.matching_among(n, id) == if route < n {
                seq![route as usize]
            } else {
                Seq::<usize>::empty()
            },
        decreases n,
    {
        if n > 0 {
            self.lemma_single_among((n - 1) as nat, id, route);
        }
    }
}

} // verus!
