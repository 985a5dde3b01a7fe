//! The crank handler: it looks at a write to an event queue and decides
//! whether the queue is to be drained.

use crate::ids::AccountId;
use crate::operation::{AccountRef, Operation, OperationBatch, OperationBatchView, OperationView};
use crate::router::AccountWriteEvent;
use vstd::prelude::*;

verus! {

/// A market and the event queue that belongs to it.
#[derive(Clone, Copy, Debug, PartialEq, Eq)]
pub struct PerpMarket {
    pub market_id: AccountId,
    pub event_queue_id: AccountId,
}

/// What the payload of an event queue decodes to.
#[derive(Clone, Copy, Debug, PartialEq, Eq, Structural)]
pub enum QueueDecode {
    /// The queue holds this many entries that were not consumed yet.
    Pending(u64),
    /// The payload is no event queue: torn, or cut short.
    Malformed,
}

/// What the handler made of a write.
#[derive(Clone, Debug, PartialEq, Eq)]
pub enum HandlerOutcome {
    /// The queue holds entries: this batch drains it.
    Emit(OperationBatch),
    /// The queue is empty.
    NothingPending,
    /// The payload could not be decoded: the write is left out.
    DecodeFailed,
    /// The account is none of the handler's event queues.
    UnknownQueue,
}

/// The mathematical value of a [`HandlerOutcome`].
pub enum HandlerOutcomeView {
    Emit(OperationBatchView),
    NothingPending,
    DecodeFailed,
    UnknownQueue,
}

impl View for HandlerOutcome {
    type V = HandlerOutcomeView;

    open spec fn view(&self) -> HandlerOutcomeView {
        match *self {
            HandlerOutcome::Emit(batch) => HandlerOutcomeView::Emit(batch@),
            HandlerOutcome::NothingPending => HandlerOutcomeView::NothingPending,
            HandlerOutcome::DecodeFailed => HandlerOutcomeView::DecodeFailed,
            HandlerOutcome::UnknownQueue => HandlerOutcomeView::UnknownQueue,
        }
    }
}

/// The input of the consume-events operation: the operation's tag, 15, as
/// four little-endian bytes, then the most events to consume in one go, 10,
/// as eight.
pub const CONSUME_EVENTS_DATA: [u8; 12] = [15, 0, 0, 0, 10, 0, 0, 0, 0, 0, 0, 0];

/// The market of the first pair whose event queue is `queue`.
pub open spec fn market_of(markets: Seq<PerpMarket>, queue: AccountId) -> Option<AccountId>
    decreases markets.len(),
{
    if markets.len() == 0 {
        None
    } else if markets.first().event_queue_id == queue {
        Some(markets.first().market_id)
    } else {
        market_of(markets.drop_first(), queue)
    }
}

/// The operation that drains an event queue. It is addressed to the program
/// and names the group and the cache, which it reads, and the market and the
/// event queue, which it writes to.
pub open spec fn consume_events_operation(
    program_id: AccountId,
    group_id: AccountId,
    cache_id: AccountId,
    market_id: AccountId,
    event_queue_id: AccountId,
) -> OperationView {
    OperationView {
        program_id,
        accounts: seq![
            AccountRef { id: group_id, is_signer: false, is_writable: false },
            AccountRef { id: cache_id, is_signer: false, is_writable: false },
            AccountRef { id: market_id, is_signer: false, is_writable: true },
            AccountRef { id: event_queue_id, is_signer: false, is_writable: true },
        ],
        data: CONSUME_EVENTS_DATA@,
    }
}

/// The handler of one market group.
#[derive(Clone, Debug, PartialEq, Eq)]
pub struct CrankHandler {
    pub markets: Vec<PerpMarket>,
    pub group_id: AccountId,
    pub cache_id: AccountId,
    pub program_id: AccountId,
}

/// The mathematical value of a [`CrankHandler`].
pub struct CrankHandlerView {
    pub markets: Seq<PerpMarket>,
    pub group_id: AccountId,
    pub cache_id: AccountId,
    pub program_id: AccountId,
}

impl CrankHandlerView {
    /// The batch that drains the event queue `queue` of `market`: one
    /// consume-events operation, for that market.
    pub open spec fn batch_for(&self, market: AccountId, queue: AccountId) -> OperationBatchView {
        OperationBatchView {
            market,
            operations: seq![
                consume_events_operation(
                    self.program_id,
                    self.group_id,
                    self.cache_id,
                    market,
                    queue,
                ),
            ],
        }
    }

    /// What the handler makes of a write to `account` whose payload decodes
    /// to `decoded`. How many entries are pending decides only whether a
    /// batch is emitted, not what the batch holds.
    pub open spec fn handle(&self, account: AccountId, decoded: QueueDecode) -> HandlerOutcomeView {
        match market_of(self.markets, account) {
            None => HandlerOutcomeView::UnknownQueue,
            Some(market) => match decoded {
                QueueDecode::Malformed => HandlerOutcomeView::DecodeFailed,
                QueueDecode::Pending(count) => if count == 0 {
                    HandlerOutcomeView::NothingPending
                } else {
                    HandlerOutcomeView::Emit(self.batch_for(market, account))
                },
            },
        }
    }
}

impl View for CrankHandler {
    type V = CrankHandlerView;

    open spec fn view(&self) -> CrankHandlerView {
        CrankHandlerView {
            markets: self.markets@,
            group_id: self.group_id,
            cache_id: self.cache_id,
            program_id: self.program_id,
        }
    }
}

impl CrankHandler {
    /// A handler for the given markets of one group.
    pub fn new(
        markets: Vec<PerpMarket>,
        group_id: AccountId,
        cache_id: AccountId,
        program_id: AccountId,
    ) -> (handler: CrankHandler)
        ensures
            handler@ == (CrankHandlerView { markets: markets@, group_id, cache_id, program_id }),
    {
        CrankHandler { markets, group_id, cache_id, program_id }
    }

    /// The market whose event queue is `queue`, if the handler has one.
    pub fn market_for(&self, queue: &AccountId) -> (market: Option<AccountId>)
        ensures
            market == market_of(self.markets@, *queue),
    {
        let mut i: usize = 0;
        assert(self.markets@.skip(0) =~= self.markets@);
        while i < self.markets.len()
            invariant
                i <= self.markets.len(),
                market_of(self.markets@, *queue) == market_of(
                    self.markets@.skip(i as int),
                    *queue,
                ),
            decreases self.markets.len() - i,
        {
            if self.markets[i].event_queue_id == *queue {
                return Some(self.markets[i].market_id);
            }
            assert(self.markets@.skip(i as int).drop_first() =~= self.markets@.skip(i + 1));
            i += 1;
        }
        None
    }

    /// The event queues that the handler cares about, in the order of its
    /// markets.
    pub fn event_queues(&self) -> (queues: Vec<AccountId>)
        ensures
            queues@ == self.markets@.map_values(|m: PerpMarket| m.event_queue_id),
    {
        let mut queues: Vec<AccountId> = Vec::new();
        let mut i: usize = 0;
        while i < self.markets.len()
            invariant
                i <= self.markets.len(),
                queues@ == self.markets@.take(i as int).map_values(
                    |m: PerpMarket| m.event_queue_id,
                ),
            decreases self.markets.len() - i,
        {
            queues.push(self.markets[i].event_queue_id);
            i += 1;
        }
        queues
    }

    /// Builds the batch that drains `queue` for `market`.
    pub fn batch_for(&self, market: AccountId, queue: AccountId) -> (batch: OperationBatch)
        ensures
            batch@ == self@.batch_for(market, queue),
    {
        let mut accounts: Vec<AccountRef> = Vec::new();
        accounts.push(AccountRef { id: self.group_id, is_signer: false, is_writable: false });
        accounts.push(AccountRef { id: self.cache_id, is_signer: false, is_writable: false });
        accounts.push(AccountRef { id: market, is_signer: false, is_writable: true });
        accounts.push(AccountRef { id: queue, is_signer: false, is_writable: true });
        let mut data: Vec<u8> = Vec::new();
        let mut i: usize = 0;
        while i < 12
            invariant
                i <= 12,
                data@ == CONSUME_EVENTS_DATA@.take(i as int),
            decreases 12 - i,
        {
            data.push(CONSUME_EVENTS_DATA[i]);
            i += 1;
        }
        assert(CONSUME_EVENTS_DATA@.take(12) =~= CONSUME_EVENTS_DATA@);
        let operation = Operation { program_id: self.program_id, accounts, data };
        assert(operation@.accounts =~= consume_events_operation(
            self.program_id,
            self.group_id,
            self.cache_id,
            market,
            queue,
        ).accounts);
        let mut operations: Vec<Operation> = Vec::new();
        operations.push(operation);
        let batch = OperationBatch { market, operations };
        assert(batch@.operations =~= self@.batch_for(market, queue).operations);
        batch
    }

    /// Handles a write to one of the handler's event queues, given what its
    /// payload decodes to: a batch for the queue's market where entries are
    /// pending, nothing otherwise.
    pub fn handle(
        &self,
        write: &AccountWriteEvent,
        decoded: QueueDecode,
    ) -> (outcome: HandlerOutcome)
        ensures
            outcome@ == self@.handle(write.account_id, decoded),
    {
        match self.market_for(&write.account_id) {
            None => HandlerOutcome::UnknownQueue,
            Some(market) => match decoded {
                QueueDecode::Malformed => HandlerOutcome::DecodeFailed,
                QueueDecode::Pending(count) => if count == 0 {
                    HandlerOutcome::NothingPending
                } else {
                    HandlerOutcome::Emit(self.batch_for(market, write.account_id))
                },
            },
        }
    }
}

/// A write whose payload decodes to no pending entries makes the handler emit
/// nothing.
pub proof fn lemma_empty_queue_emits_nothing(handler: CrankHandlerView, account: AccountId)
    ensures
        !(handler.handle(account, QueueDecode::Pending(0)) is Emit),
{
}

/// Whatever the number of pending entries, as long as there is one, the
/// handler emits the same batch: for the market of the queue, holding the one
/// consume-events operation that names the configured program, group and
/// cache, the market and the queue.
pub proof fn lemma_batch_is_independent_of_count(
    handler: CrankHandlerView,
    account: AccountId,
    count: u64,
)
    requires
        count >= 1,
        market_of(handler.markets, account) is Some,
    ensures
        handler.handle(account, QueueDecode::Pending(count)) == HandlerOutcomeView::Emit(
            OperationBatchView {
                market: market_of(handler.markets, account).unwrap(),
                operations: seq![
                    consume_events_operation(
                        handler.program_id,
                        handler.group_id,
                        handler.cache_id,
                        market_of(handler.markets, account).unwrap(),
                        account,
                    ),
                ],
            },
        ),
        handler.handle(account, QueueDecode::Pending(count)) == handler.handle(
            account,
            QueueDecode::Pending(1),
        ),
{
}

} // verus!
