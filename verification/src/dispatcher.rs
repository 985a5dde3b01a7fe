//! The transaction dispatcher: it puts the priority fee in front of a batch,
//! signs the result and writes the send record. Its loop is a state machine
//! that the caller drives with what it received.

use crate::identity::{keypair_pubkey, Identity};
use crate::ids::{AccountId, Blockhash, Signature};
use crate::operation::{
    compute_unit_price_operation, priority_fee_operation, Operation, OperationBatch,
    OperationBatchView, OperationKind, OperationView,
};
use crate::signing::{
    can_sign, sign_operations, signable, signed_transaction, SignedTransaction,
    SignedTransactionView,
};
use vstd::bytes::{
    lemma_auto_spec_u64_to_from_le_bytes, spec_u64_from_le_bytes, spec_u64_to_le_bytes,
};
use vstd::prelude::*;

verus! {

/// A point in time: seconds since the Unix epoch, and the nanoseconds of the
/// second that has begun.
#[derive(Clone, Copy, Debug, PartialEq, Eq, Structural)]
pub struct Timestamp {
    pub secs: i64,
    pub nanos: u32,
}

/// What is noted of one transaction that was handed to the transport.
#[derive(Clone, Copy, Debug, PartialEq, Eq)]
pub struct TransactionSendRecord {
    pub signature: Signature,
    pub sent_at: Timestamp,
    pub sent_slot: u64,
    pub market: Option<AccountId>,
    pub priority_fees: u64,
    pub keeper_instruction: Option<OperationKind>,
}

/// A signed transaction ready for the transport, with its record.
#[derive(Clone, Debug, PartialEq, Eq)]
pub struct Dispatch {
    pub transaction: SignedTransaction,
    pub record: TransactionSendRecord,
}

/// The mathematical value of a [`Dispatch`].
pub struct DispatchView {
    pub transaction: SignedTransactionView,
    pub record: TransactionSendRecord,
}

impl View for Dispatch {
    type V = DispatchView;

    open spec fn view(&self) -> DispatchView {
        DispatchView { transaction: self.transaction@, record: self.record }
    }
}

/// Where the dispatcher's loop stands. `Stopped` is final.
#[derive(Clone, Copy, Debug, PartialEq, Eq, Structural)]
pub enum DispatcherState {
    Running,
    Stopped,
}

/// What the caller does after a step of the loop.
#[derive(Clone, Debug, PartialEq, Eq)]
pub enum DispatcherAction {
    /// Nothing was received: wait for the next batch.
    Wait,
    /// Hand the transaction to the transport and keep the record.
    Send(Dispatch),
    /// The batch for this market cannot be signed: leave it out and go on.
    Skip(AccountId),
    /// Leave the loop.
    Stop,
}

/// The mathematical value of a [`DispatcherAction`].
pub enum DispatcherActionView {
    Wait,
    Send(DispatchView),
    Skip(AccountId),
    Stop,
}

impl View for DispatcherAction {
    type V = DispatcherActionView;

    open spec fn view(&self) -> DispatcherActionView {
        match *self {
            DispatcherAction::Wait => DispatcherActionView::Wait,
            DispatcherAction::Send(dispatch) => DispatcherActionView::Send(dispatch@),
            DispatcherAction::Skip(market) => DispatcherActionView::Skip(market),
            DispatcherAction::Stop => DispatcherActionView::Stop,
        }
    }
}

/// The operations that are signed for a batch: the priority fee, then the
/// batch's own operations in their order.
pub open spec fn dispatched_operations(fee: u64, ops: Seq<OperationView>) -> Seq<OperationView> {
    seq![priority_fee_operation(fee)] + ops
}

/// The single consumer of the dispatch channel.
pub struct Dispatcher {
    pub identity: Identity,
    pub priority_fee: u64,
}

/// Reads the wall clock with `chrono::Utc::now` and hands out its seconds
/// (`timestamp`) and nanoseconds (`timestamp_subsec_nanos`). Nothing is
/// claimed of the time that comes back.
#[verifier::external_body]
fn wall_clock() -> (now: Timestamp) {
    let now = chrono::Utc::now();
    Timestamp { secs: now.timestamp(), nanos: now.timestamp_subsec_nanos() }
}

impl Dispatcher {
    /// A dispatcher that signs as `identity` and offers `priority_fee` for
    /// each compute unit.
    pub fn new(identity: Identity, priority_fee: u64) -> (dispatcher: Dispatcher)
        ensures
            dispatcher.identity == identity,
            dispatcher.priority_fee == priority_fee,
    {
        Dispatcher { identity, priority_fee }
    }

    /// The batch, with the fee in front, can be signed by the identity alone.
    pub open spec fn can_dispatch(&self, batch: OperationBatchView) -> bool {
        signable(
            dispatched_operations(self.priority_fee, batch.operations),
            self.identity.spec_pubkey(),
        )
    }

    /// The transaction and the record for a batch, given the block hash, the
    /// current slot and the time of the send.
    pub open spec fn spec_dispatch(
        &self,
        batch: OperationBatchView,
        blockhash: Blockhash,
        current_slot: u64,
        sent_at: Timestamp,
    ) -> DispatchView {
        let transaction = signed_transaction(
            dispatched_operations(self.priority_fee, batch.operations),
            self.identity@,
            blockhash@,
        );
        DispatchView {
            transaction,
            record: TransactionSendRecord {
                signature: transaction.signatures[0],
                sent_at,
                sent_slot: current_slot,
                market: Some(batch.market),
                priority_fees: self.priority_fee,
                keeper_instruction: Some(OperationKind::ConsumeEvents),
            },
        }
    }

    /// One step of the loop. A stopped dispatcher stays stopped. A running
    /// one stops as soon as it sees the shutdown flag, whatever it received;
    /// otherwise it sends what it received, if that can be signed.
    pub open spec fn spec_step(
        &self,
        state: DispatcherState,
        shutdown: bool,
        received: Option<OperationBatchView>,
        blockhash: Blockhash,
        current_slot: u64,
        sent_at: Timestamp,
    ) -> (DispatcherState, DispatcherActionView) {
        if state == DispatcherState::Stopped || shutdown {
            (DispatcherState::Stopped, DispatcherActionView::Stop)
        } else {
            match received {
                None => (DispatcherState::Running, DispatcherActionView::Wait),
                Some(batch) => if self.can_dispatch(batch) {
                    (
                        DispatcherState::Running,
                        DispatcherActionView::Send(
                            self.spec_dispatch(batch, blockhash, current_slot, sent_at),
                        ),
                    )
                } else {
                    (DispatcherState::Running, DispatcherActionView::Skip(batch.market))
                },
            }
        }
    }

    /// Puts the priority-fee operation in front of a batch's operations.
    pub fn with_priority_fee(&self, operations: Vec<Operation>) -> (all: Vec<Operation>)
        ensures
            all.deep_view() == dispatched_operations(self.priority_fee, operations.deep_view()),
    {
        let mut all = operations;
        let fee = compute_unit_price_operation(self.priority_fee);
        all.insert(0, fee);
        all
    }

    /// Signs operations that already carry the fee, and writes the record.
    fn sign_and_record(
        &self,
        market: AccountId,
        operations: &Vec<Operation>,
        blockhash: &Blockhash,
        current_slot: u64,
        sent_at: Timestamp,
    ) -> (dispatch: Dispatch)
        requires
            signable(operations.deep_view(), self.identity.spec_pubkey()),
        ensures
            dispatch.transaction@ == signed_transaction(
                operations.deep_view(),
                self.identity@,
                blockhash@,
            ),
            dispatch.record == (TransactionSendRecord {
                signature: dispatch.transaction.signatures@[0],
                sent_at,
                sent_slot: current_slot,
                market: Some(market),
                priority_fees: self.priority_fee,
                keeper_instruction: Some(OperationKind::ConsumeEvents),
            }),
    {
        let payer = self.identity.pubkey();
        assert(keypair_pubkey(self.identity@) == Some(payer));
        let transaction = sign_operations(operations, &self.identity, blockhash);
        let record = TransactionSendRecord {
            signature: transaction.signatures[0],
            sent_at,
            sent_slot: current_slot,
            market: Some(market),
            priority_fees: self.priority_fee,
            keeper_instruction: Some(OperationKind::ConsumeEvents),
        };
        Dispatch { transaction, record }
    }

    /// Builds, signs and records the transaction for one batch. The block
    /// hash and the slot are the caller's snapshots at the moment of signing.
    pub fn dispatch(
        &self,
        batch: OperationBatch,
        blockhash: &Blockhash,
        current_slot: u64,
        sent_at: Timestamp,
    ) -> (dispatch: Dispatch)
        requires
            self.can_dispatch(batch@),
        ensures
            dispatch@ == self.spec_dispatch(batch@, *blockhash, current_slot, sent_at),
    {
        let market = batch.market;
        let operations = self.with_priority_fee(batch.operations);
        self.sign_and_record(market, &operations, blockhash, current_slot, sent_at)
    }

    /// One step of the loop, for a send at the given time.
    pub fn step_at(
        &self,
        state: DispatcherState,
        shutdown: bool,
        received: Option<OperationBatch>,
        blockhash: &Blockhash,
        current_slot: u64,
        sent_at: Timestamp,
    ) -> (next: (DispatcherState, DispatcherAction))
        ensures
            (next.0, next.1@) == self.spec_step(
                state,
                shutdown,
                received.deep_view(),
                *blockhash,
                current_slot,
                sent_at,
            ),
    {
        let stopped = match state {
            DispatcherState::Stopped => true,
            DispatcherState::Running => false,
        };
        if stopped || shutdown {
            return (DispatcherState::Stopped, DispatcherAction::Stop);
        }
        match received {
            None => (DispatcherState::Running, DispatcherAction::Wait),
            Some(batch) => {
                let market = batch.market;
                let operations = self.with_priority_fee(batch.operations);
                let payer = self.identity.pubkey();
                if can_sign(&operations, &payer) {
                    let dispatch = self.sign_and_record(
                        market,
                        &operations,
                        blockhash,
                        current_slot,
                        sent_at,
                    );
                    (DispatcherState::Running, DispatcherAction::Send(dispatch))
                } else {
                    (DispatcherState::Running, DispatcherAction::Skip(market))
                }
            },
        }
    }

    /// One step of the loop, for a send now: the record carries the time that
    /// the wall clock shows when the batch is taken up.
    pub fn step(
        &self,
        state: DispatcherState,
        shutdown: bool,
        received: Option<OperationBatch>,
        blockhash: &Blockhash,
        current_slot: u64,
    ) -> (next: (DispatcherState, DispatcherAction))
        ensures
            exists|sent_at: Timestamp|
                (next.0, next.1@) == #[trigger] self.spec_step(
                    state,
                    shutdown,
                    received.deep_view(),
                    *blockhash,
                    current_slot,
                    sent_at,
                ),
    {
        let sent_at = wall_clock();
        self.step_at(state, shutdown, received, blockhash, current_slot, sent_at)
    }
}

/// What is signed for a batch starts with the priority-fee operation, which
/// carries the configured fee, and goes on with the batch's operations as
/// they were.
pub proof fn lemma_priority_fee_comes_first(fee: u64, ops: Seq<OperationView>)
    ensures
        dispatched_operations(fee, ops).len() == ops.len() + 1,
        dispatched_operations(fee, ops)[0] == priority_fee_operation(fee),
        dispatched_operations(fee, ops).skip(1) == ops,
        priority_fee_operation(fee).data.len() == 9,
        priority_fee_operation(fee).data[0] == 3,
        spec_u64_from_le_bytes(priority_fee_operation(fee).data.skip(1)) == fee,
{
    lemma_auto_spec_u64_to_from_le_bytes();
    assert(priority_fee_operation(fee).data.skip(1) =~= spec_u64_to_le_bytes(fee));
}

/// The record of a send carries the slot, the time and the fee that the
/// dispatcher was given for it, and the market of the batch: nothing of it is
/// taken from the write that caused the batch.
pub proof fn lemma_record_of_a_send(
    dispatcher: Dispatcher,
    batch: OperationBatchView,
    blockhash: Blockhash,
    current_slot: u64,
    sent_at: Timestamp,
)
    ensures
        dispatcher.spec_dispatch(batch, blockhash, current_slot, sent_at).record.sent_slot
            == current_slot,
        dispatcher.spec_dispatch(batch, blockhash, current_slot, sent_at).record.sent_at
            == sent_at,
        dispatcher.spec_dispatch(batch, blockhash, current_slot, sent_at).record.market == Some(
            batch.market,
        ),
        dispatcher.spec_dispatch(batch, blockhash, current_slot, sent_at).record.priority_fees
            == dispatcher.priority_fee,
        dispatcher.spec_dispatch(
            batch,
            blockhash,
            current_slot,
            sent_at,
        ).record.keeper_instruction == Some(OperationKind::ConsumeEvents),
{
}

/// Once the shutdown flag is seen the loop ends, and what was received is not
/// sent.
pub proof fn lemma_shutdown_stops_the_loop(
    dispatcher: Dispatcher,
    state: DispatcherState,
    received: Option<OperationBatchView>,
    blockhash: Blockhash,
    current_slot: u64,
    sent_at: Timestamp,
)
    ensures
        dispatcher.spec_step(state, true, received, blockhash, current_slot, sent_at) == (
            DispatcherState::Stopped,
            DispatcherActionView::Stop,
        ),
{
}

/// A stopped dispatcher never runs again and never sends.
pub proof fn lemma_stopped_is_final(
    dispatcher: Dispatcher,
    shutdown: bool,
    received: Option<OperationBatchView>,
    blockhash: Blockhash,
    current_slot: u64,
    sent_at: Timestamp,
)
    ensures
        dispatcher.spec_step(
            DispatcherState::Stopped,
            shutdown,
            received,
            blockhash,
            current_slot,
            sent_at,
        ) == (DispatcherState::Stopped, DispatcherActionView::Stop),
{
}

/// The loop ends for no other reason than the shutdown flag: a running
/// dispatcher that does not see it keeps running, whatever it received.
pub proof fn lemma_only_shutdown_stops(
    dispatcher: Dispatcher,
    received: Option<OperationBatchView>,
    blockhash: Blockhash,
    current_slot: u64,
    sent_at: Timestamp,
)
    ensures
        dispatcher.spec_step(
            DispatcherState::Running,
            false,
            received,
            blockhash,
            current_slot,
            sent_at,
        ).0 == DispatcherState::Running,
        dispatcher.spec_step(
            DispatcherState::Running,
            false,
            received,
            blockhash,
            current_slot,
            sent_at,
        ).1 is Send ==> received is Some,
{
}

} // verus!
