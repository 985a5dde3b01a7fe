//! Operations: what a transaction asks a program to do, and batches of them.

use crate::ids::AccountId;
use solana_sdk::compute_budget::ComputeBudgetInstruction;
use vstd::bytes::spec_u64_to_le_bytes;
use vstd::prelude::*;

verus! {

/// One account that an operation touches, with the rights it asks for.
#[derive(Clone, Copy, Debug, PartialEq, Eq)]
pub struct AccountRef {
    pub id: AccountId,
    pub is_signer: bool,
    pub is_writable: bool,
}

/// One operation of a transaction: the program to run, the accounts handed to
/// it and the program's input bytes.
#[derive(Clone, Debug, PartialEq, Eq)]
pub struct Operation {
    pub program_id: AccountId,
    pub accounts: Vec<AccountRef>,
    pub data: Vec<u8>,
}

/// The mathematical value of an [`Operation`].
pub struct OperationView {
    pub program_id: AccountId,
    pub accounts: Seq<AccountRef>,
    pub data: Seq<u8>,
}

impl View for Operation {
    type V = OperationView;

    open spec fn view(&self) -> OperationView {
        OperationView { program_id: self.program_id, accounts: self.accounts@, data: self.data@ }
    }
}

impl DeepView for Operation {
    type V = OperationView;

    open spec fn deep_view(&self) -> OperationView {
        self@
    }
}

/// The operations that a handler wants sent for one market, in order.
#[derive(Clone, Debug, PartialEq, Eq)]
pub struct OperationBatch {
    pub market: AccountId,
    pub operations: Vec<Operation>,
}

/// The mathematical value of an [`OperationBatch`].
pub struct OperationBatchView {
    pub market: AccountId,
    pub operations: Seq<OperationView>,
}

impl View for OperationBatch {
    type V = OperationBatchView;

    open spec fn view(&self) -> OperationBatchView {
        OperationBatchView { market: self.market, operations: self.operations.deep_view() }
    }
}

impl DeepView for OperationBatch {
    type V = OperationBatchView;

    open spec fn deep_view(&self) -> OperationBatchView {
        self@
    }
}

/// What an operation is for, as a send record names it.
#[derive(Clone, Copy, Debug, PartialEq, Eq, Structural)]
pub enum OperationKind {
    ConsumeEvents,
}

/// The bytes of the compute budget program's id, which reads
/// `ComputeBudget111111111111111111111111111111` in base58.
pub const COMPUTE_BUDGET_PROGRAM_ID: [u8; 32] = [
    3, 6, 70, 111, 229, 33, 23, 50, 255, 236, 173, 186, 114, 195, 155, 231,
    188, 140, 229, 187, 197, 247, 18, 107, 44, 67, 155, 58, 64, 0, 0, 0,
];

/// The id of the compute budget program.
pub open spec fn compute_budget_program() -> AccountId {
    AccountId { bytes: COMPUTE_BUDGET_PROGRAM_ID }
}

/// The operation that sets the price of a compute unit to `fee`: addressed to
/// the compute budget program, with no accounts, its input the tag 3 followed
/// by the fee as eight little-endian bytes.
pub open spec fn priority_fee_operation(fee: u64) -> OperationView {
    OperationView {
        program_id: compute_budget_program(),
        accounts: Seq::empty(),
        data: seq![3u8] + spec_u64_to_le_bytes(fee),
    }
}

/// Builds the priority-fee operation with
/// `ComputeBudgetInstruction::set_compute_unit_price`. That function returns
/// an instruction for the compute budget program, without accounts, whose
/// data is the byte 3 and then the price in little-endian order.
#[verifier::external_body]
pub(crate) fn compute_unit_price_operation(fee: u64) -> (op: Operation)
    ensures
        op@ == priority_fee_operation(fee),
{
    let ix = ComputeBudgetInstruction::set_compute_unit_price(fee);
    Operation {
        program_id: AccountId { bytes: ix.program_id.to_bytes() },
        accounts: ix.accounts.iter().map(|a| AccountRef {
            id: AccountId { bytes: a.pubkey.to_bytes() },
            is_signer: a.is_signer,
            is_writable: a.is_writable,
        }).collect(),
        data: ix.data,
    }
}

} // verus!
