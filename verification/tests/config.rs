use crank::config::{
    filter_config, ConfigError, FilterConfig, GroupConfig, GroupContext, PerpMarketConfig,
};
use crank::handler::PerpMarket;
use crank::ids::AccountId;
use solana_sdk::pubkey::Pubkey;

fn key(n: u8) -> String {
    Pubkey::new_from_array([n; 32]).to_string()
}

fn id(n: u8) -> AccountId {
    AccountId { bytes: [n; 32] }
}

fn group() -> GroupConfig {
    GroupConfig {
        public_key: key(1),
        cache_key: key(2),
        mango_program_id: key(3),
        perp_markets: vec![
            PerpMarketConfig { public_key: key(10), events_key: key(11) },
            PerpMarketConfig { public_key: key(20), events_key: key(21) },
        ],
    }
}

#[test]
fn config_parses_every_identifier() {
    let context = GroupContext::from_config(&group()).unwrap();
    assert_eq!(
        context,
        GroupContext {
            program_id: id(3),
            group_id: id(1),
            cache_id: id(2),
            markets: vec![
                PerpMarket { market_id: id(10), event_queue_id: id(11) },
                PerpMarket { market_id: id(20), event_queue_id: id(21) },
            ],
        }
    );
}

#[test]
fn config_parses_well_known_identifiers() {
    let mut g = group();
    g.public_key = String::from("11111111111111111111111111111111");
    g.mango_program_id = String::from("ComputeBudget111111111111111111111111111111");
    let context = GroupContext::from_config(&g).unwrap();
    assert_eq!(context.group_id, AccountId { bytes: [0; 32] });
    assert_eq!(
        context.program_id.bytes,
        [
            3, 6, 70, 111, 229, 33, 23, 50, 255, 236, 173, 186, 114, 195, 155, 231, 188, 140, 229,
            187, 197, 247, 18, 107, 44, 67, 155, 58, 64, 0, 0, 0
        ]
    );
}

#[test]
fn config_without_markets_parses() {
    let mut g = group();
    g.perp_markets.clear();
    let context = GroupContext::from_config(&g).unwrap();
    assert!(context.markets.is_empty());
}

#[test]
fn config_with_a_wrong_market_key_is_turned_down() {
    let mut g = group();
    g.perp_markets[1].public_key = String::from("not a key");
    assert_eq!(GroupContext::from_config(&g), Err(ConfigError::MarketKey(1)));
}

#[test]
fn config_with_a_wrong_events_key_is_turned_down() {
    let mut g = group();
    g.perp_markets[0].events_key = String::new();
    assert_eq!(GroupContext::from_config(&g), Err(ConfigError::EventsKey(0)));
}

#[test]
fn config_with_a_wrong_group_key_is_turned_down() {
    let mut g = group();
    g.public_key = String::from("0OIl");
    assert_eq!(GroupContext::from_config(&g), Err(ConfigError::GroupKey));
}

#[test]
fn config_with_a_wrong_cache_key_is_turned_down() {
    let mut g = group();
    g.cache_key = key(2).replacen(|_: char| true, "0", 1);
    assert_eq!(GroupContext::from_config(&g), Err(ConfigError::CacheKey));
}

#[test]
fn config_with_a_wrong_program_id_is_turned_down() {
    let mut g = group();
    g.mango_program_id = String::from("abc");
    assert_eq!(GroupContext::from_config(&g), Err(ConfigError::ProgramId));
}

#[test]
fn config_reports_the_first_wrong_identifier() {
    let mut g = group();
    g.mango_program_id = String::from("x");
    g.public_key = String::from("x");
    g.perp_markets[1].events_key = String::from("x");
    g.perp_markets[1].public_key = String::from("x");
    assert_eq!(GroupContext::from_config(&g), Err(ConfigError::MarketKey(1)));
    g.perp_markets[0].events_key = String::from("x");
    assert_eq!(GroupContext::from_config(&g), Err(ConfigError::EventsKey(0)));
    g.perp_markets.clear();
    assert_eq!(GroupContext::from_config(&g), Err(ConfigError::GroupKey));
}

#[test]
fn config_key_that_is_too_long_is_turned_down() {
    let mut g = group();
    g.cache_key = "1".repeat(45);
    assert_eq!(GroupContext::from_config(&g), Err(ConfigError::CacheKey));
}

#[test]
fn filter_names_the_program_and_the_event_queues() {
    assert_eq!(
        filter_config(&group()),
        FilterConfig { program_ids: vec![key(3)], account_ids: vec![key(11), key(21)] }
    );
}

#[test]
fn filter_of_a_group_without_markets_names_the_program_only() {
    let mut g = group();
    g.perp_markets.clear();
    assert_eq!(
        filter_config(&g),
        FilterConfig { program_ids: vec![key(3)], account_ids: Vec::new() }
    );
}

#[test]
fn filter_takes_the_strings_as_they_are() {
    let mut g = group();
    g.mango_program_id = String::from("anything");
    g.perp_markets[0].events_key = String::from("at all");
    let filter = filter_config(&g);
    assert_eq!(filter.program_ids, vec![String::from("anything")]);
    assert_eq!(filter.account_ids, vec![String::from("at all"), key(21)]);
}
