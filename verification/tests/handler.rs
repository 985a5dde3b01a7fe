use crank::handler::{CrankHandler, HandlerOutcome, PerpMarket, QueueDecode, CONSUME_EVENTS_DATA};
use crank::ids::AccountId;
use crank::operation::{AccountRef, Operation, OperationBatch};
use crank::router::AccountWriteEvent;

fn id(n: u8) -> AccountId {
    AccountId { bytes: [n; 32] }
}

fn handler() -> CrankHandler {
    CrankHandler::new(
        vec![
            PerpMarket { market_id: id(10), event_queue_id: id(11) },
            PerpMarket { market_id: id(20), event_queue_id: id(21) },
        ],
        id(1),
        id(2),
        id(3),
    )
}

fn write(account: AccountId, slot: u64) -> AccountWriteEvent {
    AccountWriteEvent { account_id: account, slot, write_version: 0, payload: Vec::new() }
}

fn expected_batch(market: AccountId, queue: AccountId) -> OperationBatch {
    OperationBatch {
        market,
        operations: vec![Operation {
            program_id: id(3),
            accounts: vec![
                AccountRef { id: id(1), is_signer: false, is_writable: false },
                AccountRef { id: id(2), is_signer: false, is_writable: false },
                AccountRef { id: market, is_signer: false, is_writable: true },
                AccountRef { id: queue, is_signer: false, is_writable: true },
            ],
            data: vec![15, 0, 0, 0, 10, 0, 0, 0, 0, 0, 0, 0],
        }],
    }
}

#[test]
fn empty_queue_emits_nothing() {
    let outcome = handler().handle(&write(id(11), 5), QueueDecode::Pending(0));
    assert_eq!(outcome, HandlerOutcome::NothingPending);
}

#[test]
fn pending_entries_emit_one_batch_for_the_market() {
    let outcome = handler().handle(&write(id(21), 5), QueueDecode::Pending(3));
    assert_eq!(outcome, HandlerOutcome::Emit(expected_batch(id(20), id(21))));
}

#[test]
fn batch_does_not_depend_on_the_number_of_pending_entries() {
    let h = handler();
    let one = h.handle(&write(id(11), 5), QueueDecode::Pending(1));
    let many = h.handle(&write(id(11), 5), QueueDecode::Pending(u64::MAX));
    assert_eq!(one, HandlerOutcome::Emit(expected_batch(id(10), id(11))));
    assert_eq!(one, many);
}

#[test]
fn batch_does_not_depend_on_slot_or_payload() {
    let h = handler();
    let mut other = write(id(11), 900);
    other.payload = vec![9; 40];
    other.write_version = 17;
    assert_eq!(
        h.handle(&write(id(11), 5), QueueDecode::Pending(2)),
        h.handle(&other, QueueDecode::Pending(2))
    );
}

#[test]
fn malformed_payload_is_skipped() {
    let outcome = handler().handle(&write(id(11), 5), QueueDecode::Malformed);
    assert_eq!(outcome, HandlerOutcome::DecodeFailed);
}

#[test]
fn write_to_an_unknown_queue_emits_nothing() {
    let h = handler();
    assert_eq!(h.handle(&write(id(10), 5), QueueDecode::Pending(3)), HandlerOutcome::UnknownQueue);
    assert_eq!(h.handle(&write(id(99), 5), QueueDecode::Malformed), HandlerOutcome::UnknownQueue);
}

#[test]
fn handler_is_stateless_across_writes() {
    let h = handler();
    let first = h.handle(&write(id(11), 5), QueueDecode::Pending(2));
    let second = h.handle(&write(id(11), 6), QueueDecode::Pending(2));
    assert_eq!(first, second);
}

#[test]
fn market_is_found_by_its_event_queue() {
    let h = handler();
    assert_eq!(h.market_for(&id(11)), Some(id(10)));
    assert_eq!(h.market_for(&id(21)), Some(id(20)));
    assert_eq!(h.market_for(&id(20)), None);
}

#[test]
fn first_market_wins_where_two_share_a_queue() {
    let h = CrankHandler::new(
        vec![
            PerpMarket { market_id: id(10), event_queue_id: id(11) },
            PerpMarket { market_id: id(20), event_queue_id: id(11) },
        ],
        id(1),
        id(2),
        id(3),
    );
    assert_eq!(h.market_for(&id(11)), Some(id(10)));
}

#[test]
fn event_queues_come_in_the_order_of_the_markets() {
    assert_eq!(handler().event_queues(), vec![id(11), id(21)]);
}

#[test]
fn consume_events_data_is_tag_and_limit() {
    assert_eq!(CONSUME_EVENTS_DATA[..4], 15u32.to_le_bytes());
    assert_eq!(CONSUME_EVENTS_DATA[4..], 10u64.to_le_bytes());
}
