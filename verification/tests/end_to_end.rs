use crank::config::{ConfigError, GroupConfig, PerpMarketConfig};
use crank::dispatcher::{DispatcherAction, DispatcherState, Timestamp, TransactionSendRecord};
use crank::handler::QueueDecode;
use crank::ids::{AccountId, Blockhash};
use crank::keeper::{deliver, start, Keeper, StartError};
use crank::operation::{OperationBatch, OperationKind};
use crank::router::AccountWriteEvent;
use crank::slot::{advance_slot, SlotStatus, SlotUpdateEvent};
use solana_sdk::pubkey::Pubkey;
use solana_sdk::signature::Keypair;
use std::collections::VecDeque;

fn key(n: u8) -> String {
    Pubkey::new_from_array([n; 32]).to_string()
}

fn id(n: u8) -> AccountId {
    AccountId { bytes: [n; 32] }
}

fn group() -> GroupConfig {
    GroupConfig {
        public_key: key(1),
        cache_key: key(2),
        mango_program_id: key(3),
        perp_markets: vec![
            PerpMarketConfig { public_key: key(10), events_key: key(11) },
            PerpMarketConfig { public_key: key(20), events_key: key(21) },
        ],
    }
}

fn identity() -> [u8; 64] {
    Keypair::new_from_array([5; 32]).to_bytes()
}

fn keeper() -> Keeper {
    match start(&group(), identity(), 5000) {
        Ok(keeper) => keeper,
        Err(error) => panic!("did not start: {:?}", error),
    }
}

fn write(account: AccountId, slot: u64) -> AccountWriteEvent {
    AccountWriteEvent { account_id: account, slot, write_version: 1, payload: vec![0; 16] }
}

fn at() -> Timestamp {
    Timestamp { secs: 1_700_000_000, nanos: 0 }
}

fn drain(
    keeper: &Keeper,
    channel: &mut VecDeque<OperationBatch>,
    shutdown: bool,
    current_slot: u64,
) -> Vec<TransactionSendRecord> {
    let mut records = Vec::new();
    let mut state = DispatcherState::Running;
    loop {
        let received = if shutdown { None } else { channel.pop_front() };
        let nothing = received.is_none();
        let (next, action) = keeper.dispatcher.step_at(
            state,
            shutdown,
            received,
            &Blockhash { bytes: [8; 32] },
            current_slot,
            at(),
        );
        state = next;
        match action {
            DispatcherAction::Send(dispatch) => records.push(dispatch.record),
            DispatcherAction::Stop => break,
            DispatcherAction::Wait | DispatcherAction::Skip(_) => {}
        }
        if nothing {
            break;
        }
    }
    records
}

#[test]
fn start_sets_up_filter_route_and_dispatcher() {
    let keeper = keeper();
    assert_eq!(keeper.filter.program_ids, vec![key(3)]);
    assert_eq!(keeper.filter.account_ids, vec![key(11), key(21)]);
    assert_eq!(keeper.router.routes.len(), 1);
    let route = &keeper.router.routes[0];
    assert_eq!(route.matched_count(), 2);
    assert!(route.matches(&id(11)));
    assert!(route.matches(&id(21)));
    assert!(!route.matches(&id(10)));
    assert_eq!(route.timeout_interval(), 0);
    assert_eq!(route.handler().group_id, id(1));
    assert_eq!(route.handler().cache_id, id(2));
    assert_eq!(route.handler().program_id, id(3));
    assert_eq!(route.handler().markets.len(), 2);
    assert_eq!(keeper.dispatcher.priority_fee, 5000);
    assert_eq!(keeper.dispatcher.identity.to_bytes(), identity());
}

#[test]
fn start_turns_down_a_wrong_identifier() {
    let mut g = group();
    g.cache_key = String::from("?");
    assert!(matches!(
        start(&g, identity(), 1),
        Err(StartError::Config(ConfigError::CacheKey))
    ));
}

#[test]
fn start_turns_down_a_wrong_identity() {
    assert!(matches!(start(&group(), [1; 64], 1), Err(StartError::Identity)));
}

#[test]
fn start_reports_a_wrong_identifier_before_a_wrong_identity() {
    let mut g = group();
    g.perp_markets[0].public_key = String::from("?");
    assert!(matches!(
        start(&g, [1; 64], 1),
        Err(StartError::Config(ConfigError::MarketKey(0)))
    ));
}

#[test]
fn write_to_an_unwatched_account_emits_nothing() {
    let keeper = keeper();
    for account in [id(1), id(10), id(20), id(99)] {
        assert!(deliver(&keeper.router, &write(account, 1), QueueDecode::Pending(3)).is_empty());
    }
}

#[test]
fn write_with_pending_entries_yields_one_record_for_the_market() {
    let keeper = keeper();
    let mut channel = VecDeque::new();
    channel.extend(deliver(&keeper.router, &write(id(21), 700), QueueDecode::Pending(3)));
    assert_eq!(channel.len(), 1);
    let records = drain(&keeper, &mut channel, false, 123);
    assert_eq!(records.len(), 1);
    assert_eq!(records[0].market, Some(id(20)));
    assert_eq!(records[0].keeper_instruction, Some(OperationKind::ConsumeEvents));
    assert_eq!(records[0].priority_fees, 5000);
    assert_eq!(records[0].sent_at, at());
    assert!(channel.is_empty());
}

#[test]
fn record_slot_is_the_current_slot_not_the_slot_of_the_write() {
    let keeper = keeper();
    let mut channel = VecDeque::new();
    channel.extend(deliver(&keeper.router, &write(id(11), 700), QueueDecode::Pending(1)));
    let mut current = 0;
    for slot in [5, 3, 7] {
        current = advance_slot(current, &SlotUpdateEvent { slot, status: SlotStatus::Confirmed });
    }
    let records = drain(&keeper, &mut channel, false, current);
    assert_eq!(records.len(), 1);
    assert_eq!(records[0].sent_slot, 7);
}

#[test]
fn two_writes_of_which_the_second_is_empty_emit_one_batch() {
    let keeper = keeper();
    let mut channel = VecDeque::new();
    channel.extend(deliver(&keeper.router, &write(id(11), 1), QueueDecode::Pending(2)));
    channel.extend(deliver(&keeper.router, &write(id(11), 2), QueueDecode::Pending(0)));
    assert_eq!(channel.len(), 1);
    assert_eq!(channel[0].market, id(10));
    assert_eq!(channel[0].operations.len(), 1);
    assert_eq!(channel[0].operations[0].accounts[3].id, id(11));
}

#[test]
fn every_write_with_a_backlog_emits_again() {
    let keeper = keeper();
    let mut channel = VecDeque::new();
    channel.extend(deliver(&keeper.router, &write(id(11), 1), QueueDecode::Pending(2)));
    channel.extend(deliver(&keeper.router, &write(id(11), 2), QueueDecode::Pending(2)));
    assert_eq!(channel.len(), 2);
    assert_eq!(channel[0], channel[1]);
}

#[test]
fn malformed_write_is_followed_by_a_good_one() {
    let keeper = keeper();
    let mut channel = VecDeque::new();
    channel.extend(deliver(&keeper.router, &write(id(11), 1), QueueDecode::Malformed));
    assert!(channel.is_empty());
    channel.extend(deliver(&keeper.router, &write(id(11), 2), QueueDecode::Pending(1)));
    assert_eq!(channel.len(), 1);
}

#[test]
fn batches_are_dispatched_in_the_order_of_arrival() {
    let keeper = keeper();
    let mut channel = VecDeque::new();
    channel.extend(deliver(&keeper.router, &write(id(21), 1), QueueDecode::Pending(1)));
    channel.extend(deliver(&keeper.router, &write(id(11), 2), QueueDecode::Pending(1)));
    channel.extend(deliver(&keeper.router, &write(id(21), 3), QueueDecode::Pending(1)));
    let records = drain(&keeper, &mut channel, false, 9);
    let markets: Vec<Option<AccountId>> = records.iter().map(|r| r.market).collect();
    assert_eq!(markets, vec![Some(id(20)), Some(id(10)), Some(id(20))]);
}

#[test]
fn shutdown_before_any_event_ends_the_loop_without_a_send() {
    let keeper = keeper();
    let mut channel = VecDeque::new();
    channel.extend(deliver(&keeper.router, &write(id(11), 1), QueueDecode::Pending(4)));
    let records = drain(&keeper, &mut channel, true, 9);
    assert!(records.is_empty());
    assert_eq!(channel.len(), 1);
}
