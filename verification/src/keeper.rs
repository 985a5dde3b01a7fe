//! Startup and the ingestion path: what is set up from a configuration, and
//! what an account write makes the crank handlers emit.

use crate::config::{
    config_error, filter_config, filter_of, parsed_context, ConfigError, FilterConfig,
    GroupConfig, GroupConfigView, GroupContext, GroupContextView,
};
use crate::dispatcher::{
    dispatched_operations, lemma_priority_fee_comes_first, Dispatcher, DispatcherActionView,
    DispatcherState, Timestamp,
};
use crate::handler::{
    market_of, CrankHandler, CrankHandlerView, HandlerOutcome, HandlerOutcomeView, PerpMarket,
    QueueDecode,
};
use crate::identity::{keypair_pubkey, Identity};
use crate::ids::{AccountId, Blockhash};
use crate::operation::{OperationBatch, OperationBatchView, OperationView};
use crate::router::{AccountWriteEvent, Route, Router};
use crate::signing::{account_uses, lemma_message_keys_are_finite, operation_uses};
use vstd::prelude::*;

verus! {

/// Why the keeper did not start.
#[derive(Clone, Copy, Debug, PartialEq, Eq, Structural)]
pub enum StartError {
    /// An identifier of the configuration is no account id.
    Config(ConfigError),
    /// The identity's bytes are no key pair.
    Identity,
}

/// What startup sets up: the filter for the event source, the router with
/// its one crank route, and the dispatcher.
pub struct Keeper {
    pub filter: FilterConfig,
    pub router: Router<CrankHandler>,
    pub dispatcher: Dispatcher,
}

/// Why a configuration and an identity are turned down, if they are: a wrong
/// identifier comes before a wrong identity.
pub open spec fn start_error(group: GroupConfigView, identity: Seq<u8>) -> Option<StartError> {
    match config_error(group) {
        Some(error) => Some(StartError::Config(error)),
        None => if keypair_pubkey(identity) is None {
            Some(StartError::Identity)
        } else {
            None
        },
    }
}

/// The event queues of the markets, in the order of the markets.
pub open spec fn event_queues_of(markets: Seq<PerpMarket>) -> Seq<AccountId> {
    markets.map_values(|m: PerpMarket| m.event_queue_id)
}

/// The handler for a group.
pub open spec fn handler_of(context: GroupContextView) -> CrankHandlerView {
    CrankHandlerView {
        markets: context.markets,
        group_id: context.group_id,
        cache_id: context.cache_id,
        program_id: context.program_id,
    }
}

/// The route is the crank route of the group: it watches the event queues of
/// the group's markets, calls the group's handler and has no heartbeat.
pub open spec fn is_crank_route(route: Route<CrankHandler>, context: GroupContextView) -> bool {
    &&& route.matched_ids() == event_queues_of(context.markets).to_set()
    &&& route.spec_handler()@ == handler_of(context)
    &&& route.spec_timeout_interval() == 0
}

impl Keeper {
    /// The keeper is what startup yields for the configuration, the
    /// identity and the fee.
    pub open spec fn started_from(
        &self,
        group: GroupConfigView,
        identity: Seq<u8>,
        prioritization_fee: u64,
    ) -> bool {
        &&& self.filter@ == filter_of(group)
        &&& self.router.routes@.len() == 1
        &&& is_crank_route(self.router.routes@[0], parsed_context(group))
        &&& self.dispatcher.identity@ == identity
        &&& self.dispatcher.priority_fee == prioritization_fee
    }
}

/// The crank route of a group.
pub fn crank_route(context: GroupContext) -> (route: Route<CrankHandler>)
    ensures
        is_crank_route(route, context@),
{
    let handler = CrankHandler::new(
        context.markets,
        context.group_id,
        context.cache_id,
        context.program_id,
    );
    let queues = handler.event_queues();
    Route::new(&queues, handler, 0)
}

/// Sets up the keeper. It does not start with an identifier that is no
/// account id, nor with an identity that is no key pair.
pub fn start(
    group: &GroupConfig,
    identity: [u8; 64],
    prioritization_fee: u64,
) -> (r: Result<Keeper, StartError>)
    ensures
        r is Err <==> start_error(group@, identity@) is Some,
        r matches Err(error) ==> Some(error) == start_error(group@, identity@),
        r matches Ok(keeper) ==> keeper.started_from(group@, identity@, prioritization_fee),
{
    let context = match GroupContext::from_config(group) {
        Ok(context) => context,
        Err(error) => { return Err(StartError::Config(error)); },
    };
    let filter = filter_config(group);
    let identity = match Identity::from_bytes(identity) {
        Some(identity) => identity,
        None => { return Err(StartError::Identity); },
    };
    let mut routes: Vec<Route<CrankHandler>> = Vec::new();
    routes.push(crank_route(context));
    Ok(
        Keeper {
            filter,
            router: Router::new(routes),
            dispatcher: Dispatcher::new(identity, prioritization_fee),
        },
    )
}

/// The batches that the handlers of the routes `hits` emit, in that order,
/// for a write to `account` whose payload decodes to `decoded`.
pub open spec fn emitted_by(
    router: Router<CrankHandler>,
    hits: Seq<usize>,
    account: AccountId,
    decoded: QueueDecode,
) -> Seq<OperationBatchView>
    decreases hits.len(),
{
    if hits.len() == 0 {
        Seq::empty()
    } else {
        let before = emitted_by(router, hits.drop_last(), account, decoded);
        match router.routes@[hits.last() as int].spec_handler()@.handle(account, decoded) {
            HandlerOutcomeView::Emit(batch) => before.push(batch),
            _ => before,
        }
    }
}

/// The batches that go onto the dispatch channel for a write to `account`
/// whose payload decodes to `decoded`: what the handler of each route that
/// watches the account emits, in the order of the routes.
pub open spec fn emitted(
    router: Router<CrankHandler>,
    account: AccountId,
    decoded: QueueDecode,
) -> Seq<OperationBatchView> {
    emitted_by(router, router.matching(account), account, decoded)
}

/// Takes a write through the router and the handlers, and returns the
/// batches for the dispatch channel.
pub fn deliver(
    router: &Router<CrankHandler>,
    write: &AccountWriteEvent,
    decoded: QueueDecode,
) -> (batches: Vec<OperationBatch>)
    ensures
        batches.deep_view() == emitted(*router, write.account_id, decoded),
{
    let hits = router.route(write);
    proof {
        router.lemma_matching_among(router.routes@.len(), write.account_id);
    }
    let mut batches: Vec<OperationBatch> = Vec::new();
    let mut k: usize = 0;
    while k < hits.len()
        invariant
            k <= hits.len(),
            forall|j: int| 0 <= j < hits@.len() ==> (#[trigger] hits@[j]) < router.routes@.len(),
            batches.deep_view() == emitted_by(
                *router,
                hits@.take(k as int),
                write.account_id,
                decoded,
            ),
        decreases hits.len() - k,
    {
        proof {
            assert(hits@.take(k + 1).drop_last() =~= hits@.take(k as int));
        }
        let route = &router.routes[hits[k]];
        match route.handler().handle(write, decoded) {
            HandlerOutcome::Emit(batch) => batches.push(batch),
            _ => {},
        }
        k += 1;
    }
    assert(hits@.take(k as int) =~= hits@);
    batches
}

/// A write to an account that no route watches puts nothing onto the
/// dispatch channel.
pub proof fn lemma_unwatched_write_emits_nothing(
    router: Router<CrankHandler>,
    account: AccountId,
    decoded: QueueDecode,
)
    requires
        forall|i: int| 0 <= i < router.routes@.len() ==> !router.route_matches(i, account),
    ensures
        emitted(router, account, decoded) == Seq::<OperationBatchView>::empty(),
{
    router.lemma_unmatched_write_reaches_no_handler(account);
}

/// A write whose payload decodes to no pending entries, or does not decode,
/// puts nothing onto the dispatch channel, whatever the routes.
pub proof fn lemma_idle_write_emits_nothing(
    router: Router<CrankHandler>,
    account: AccountId,
    decoded: QueueDecode,
)
    requires
        decoded == QueueDecode::Pending(0) || decoded == QueueDecode::Malformed,
    ensures
        emitted(router, account, decoded) == Seq::<OperationBatchView>::empty(),
{
    lemma_idle_hits_emit_nothing(router, router.matching(account), account, decoded);
}

proof fn lemma_idle_hits_emit_nothing(
    router: Router<CrankHandler>,
    hits: Seq<usize>,
    account: AccountId,
    decoded: QueueDecode,
)
    requires
        decoded == QueueDecode::Pending(0) || decoded == QueueDecode::Malformed,
    ensures
        emitted_by(router, hits, account, decoded) == Seq::<OperationBatchView>::empty(),
    decreases hits.len(),
{
    if hits.len() > 0 {
        lemma_idle_hits_emit_nothing(router, hits.drop_last(), account, decoded);
    }
}

/// A write to an event queue that exactly one route watches, with at least
/// one entry pending, puts exactly one batch onto the dispatch channel: the
/// batch of that route's handler for the queue's market.
pub proof fn lemma_pending_write_emits_one_batch(
    router: Router<CrankHandler>,
    route: int,
    account: AccountId,
    count: u64,
)
    requires
        router.route_matches(route, account),
        forall|i: int| router.route_matches(i, account) ==> i == route,
        market_of(router.routes@[route].spec_handler()@.markets, account) is Some,
        count >= 1,
    ensures
        emitted(router, account, QueueDecode::Pending(count)) == seq![
            router.routes@[route].spec_handler()@.batch_for(
                market_of(router.routes@[route].spec_handler()@.markets, account).unwrap(),
                account,
            ),
        ],
{
    router.lemma_single_match_reaches_one_handler(account, route);
    assert(0 <= route < router.routes.len() <= usize::MAX);
    let hits = seq![route as usize];
    let decoded = QueueDecode::Pending(count);
    assert(emitted_by(router, hits.drop_last(), account, decoded)
        == Seq::<OperationBatchView>::empty());
}

/// Whatever the crank handler emits can be dispatched: with the fee in front
/// it names seven accounts at most, asks no account to sign, and is signed
/// and sent as soon as a running dispatcher receives it.
pub proof fn lemma_crank_batch_is_sent(
    dispatcher: Dispatcher,
    handler: CrankHandlerView,
    market: AccountId,
    queue: AccountId,
    blockhash: Blockhash,
    current_slot: u64,
    sent_at: Timestamp,
)
    ensures
        dispatcher.can_dispatch(handler.batch_for(market, queue)),
        dispatcher.spec_step(
            DispatcherState::Running,
            false,
            Some(handler.batch_for(market, queue)),
            blockhash,
            current_slot,
            sent_at,
        ) == (
            DispatcherState::Running,
            DispatcherActionView::Send(
                dispatcher.spec_dispatch(
                    handler.batch_for(market, queue),
                    blockhash,
                    current_slot,
                    sent_at,
                ),
            ),
        ),
{
    let payer = dispatcher.identity.spec_pubkey();
    let batch = handler.batch_for(market, queue);
    let ops = dispatched_operations(dispatcher.priority_fee, batch.operations);
    let uses = account_uses(ops);
    lemma_priority_fee_comes_first(dispatcher.priority_fee, batch.operations);
    assert(ops.len() == 2);
    assert(ops.drop_last().drop_last() =~= Seq::<OperationView>::empty());
    reveal_with_fuel(account_uses, 3);
    assert(uses =~= operation_uses(ops[0]) + operation_uses(ops[1]));
    assert(uses.len() == 6);
    lemma_message_keys_are_finite(uses, payer);
}

} // verus!
