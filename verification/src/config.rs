//! Startup configuration: the identifiers of a market group as strings, and
//! what they parse to.

use crate::handler::PerpMarket;
use crate::ids::{parse_account_id, pubkey_from_str, AccountId};
use vstd::prelude::*;

verus! {

/// One market of the configuration: its own key and the key of its event
/// queue, both in base58.
#[derive(Clone, Debug, PartialEq, Eq)]
pub struct PerpMarketConfig {
    pub public_key: String,
    pub events_key: String,
}

/// The mathematical value of a [`PerpMarketConfig`].
pub struct PerpMarketConfigView {
    pub public_key: Seq<char>,
    pub events_key: Seq<char>,
}

impl View for PerpMarketConfig {
    type V = PerpMarketConfigView;

    open spec fn view(&self) -> PerpMarketConfigView {
        PerpMarketConfigView { public_key: self.public_key@, events_key: self.events_key@ }
    }
}

impl DeepView for PerpMarketConfig {
    type V = PerpMarketConfigView;

    open spec fn deep_view(&self) -> PerpMarketConfigView {
        self@
    }
}

/// A market group of the configuration, its keys in base58.
#[derive(Clone, Debug, PartialEq, Eq)]
pub struct GroupConfig {
    pub public_key: String,
    pub cache_key: String,
    pub mango_program_id: String,
    pub perp_markets: Vec<PerpMarketConfig>,
}

/// The mathematical value of a [`GroupConfig`].
pub struct GroupConfigView {
    pub public_key: Seq<char>,
    pub cache_key: Seq<char>,
    pub mango_program_id: Seq<char>,
    pub perp_markets: Seq<PerpMarketConfigView>,
}

impl View for GroupConfig {
    type V = GroupConfigView;

    open spec fn view(&self) -> GroupConfigView {
        GroupConfigView {
            public_key: self.public_key@,
            cache_key: self.cache_key@,
            mango_program_id: self.mango_program_id@,
            perp_markets: self.perp_markets.deep_view(),
        }
    }
}

/// What the event source is asked to deliver: the writes to accounts of these
/// programs, and to these accounts.
#[derive(Clone, Debug, PartialEq, Eq)]
pub struct FilterConfig {
    pub program_ids: Vec<String>,
    pub account_ids: Vec<String>,
}

/// The mathematical value of a [`FilterConfig`].
pub struct FilterConfigView {
    pub program_ids: Seq<Seq<char>>,
    pub account_ids: Seq<Seq<char>>,
}

impl View for FilterConfig {
    type V = FilterConfigView;

    open spec fn view(&self) -> FilterConfigView {
        FilterConfigView {
            program_ids: self.program_ids.deep_view(),
            account_ids: self.account_ids.deep_view(),
        }
    }
}

/// The identifier of the configuration that is no account id.
#[derive(Clone, Copy, Debug, PartialEq, Eq, Structural)]
pub enum ConfigError {
    /// The key of the market at this place.
    MarketKey(usize),
    /// The key of the event queue of the market at this place.
    EventsKey(usize),
    /// The key of the group.
    GroupKey,
    /// The key of the group's cache.
    CacheKey,
    /// The id of the program.
    ProgramId,
}

/// The identifiers of a market group, parsed.
#[derive(Clone, Debug, PartialEq, Eq)]
pub struct GroupContext {
    pub program_id: AccountId,
    pub group_id: AccountId,
    pub cache_id: AccountId,
    pub markets: Vec<PerpMarket>,
}

/// The mathematical value of a [`GroupContext`].
pub struct GroupContextView {
    pub program_id: AccountId,
    pub group_id: AccountId,
    pub cache_id: AccountId,
    pub markets: Seq<PerpMarket>,
}

impl View for GroupContext {
    type V = GroupContextView;

    open spec fn view(&self) -> GroupContextView {
        GroupContextView {
            program_id: self.program_id,
            group_id: self.group_id,
            cache_id: self.cache_id,
            markets: self.markets@,
        }
    }
}

/// The first identifier among the markets that is no account id. Each
/// market's own key comes before the key of its event queue.
pub open spec fn market_error(markets: Seq<PerpMarketConfigView>) -> Option<ConfigError>
    decreases markets.len(),
{
    if markets.len() == 0 {
        None
    } else if market_error(markets.drop_last()) is Some {
        market_error(markets.drop_last())
    } else if pubkey_from_str(markets.last().public_key) is None {
        Some(ConfigError::MarketKey((markets.len() - 1) as usize))
    } else if pubkey_from_str(markets.last().events_key) is None {
        Some(ConfigError::EventsKey((markets.len() - 1) as usize))
    } else {
        None
    }
}

/// The first identifier of the configuration that is no account id: the
/// markets come first, then the group, its cache and the program.
pub open spec fn config_error(group: GroupConfigView) -> Option<ConfigError> {
    if market_error(group.perp_markets) is Some {
        market_error(group.perp_markets)
    } else if pubkey_from_str(group.public_key) is None {
        Some(ConfigError::GroupKey)
    } else if pubkey_from_str(group.cache_key) is None {
        Some(ConfigError::CacheKey)
    } else if pubkey_from_str(group.mango_program_id) is None {
        Some(ConfigError::ProgramId)
    } else {
        None
    }
}

/// What one market of the configuration parses to.
pub open spec fn parsed_market(market: PerpMarketConfigView) -> PerpMarket {
    PerpMarket {
        market_id: pubkey_from_str(market.public_key).unwrap(),
        event_queue_id: pubkey_from_str(market.events_key).unwrap(),
    }
}

/// What a configuration without a wrong identifier parses to.
pub open spec fn parsed_context(group: GroupConfigView) -> GroupContextView {
    GroupContextView {
        program_id: pubkey_from_str(group.mango_program_id).unwrap(),
        group_id: pubkey_from_str(group.public_key).unwrap(),
        cache_id: pubkey_from_str(group.cache_key).unwrap(),
        markets: group.perp_markets.map_values(|m: PerpMarketConfigView| parsed_market(m)),
    }
}

/// What the event source is asked for: the one program, and the event queue
/// of each market, in the order of the markets.
pub open spec fn filter_of(group: GroupConfigView) -> FilterConfigView {
    FilterConfigView {
        program_ids: seq![group.mango_program_id],
        account_ids: group.perp_markets.map_values(|m: PerpMarketConfigView| m.events_key),
    }
}

impl GroupContext {
    /// Parses the identifiers of a group. A configuration with an identifier
    /// that is no account id is turned down, with the first such identifier.
    pub fn from_config(group: &GroupConfig) -> (r: Result<GroupContext, ConfigError>)
        ensures
            r is Err <==> config_error(group@) is Some,
            r matches Err(error) ==> Some(error) == config_error(group@),
            r matches Ok(context) ==> context@ == parsed_context(group@),
    {
        let mut markets: Vec<PerpMarket> = Vec::new();
        let ghost all = group@.perp_markets;
        let mut i: usize = 0;
        while i < group.perp_markets.len()
            invariant
                i <= group.perp_markets.len(),
                all == group.perp_markets.deep_view(),
                market_error(all.take(i as int)) is None,
                markets@ == all.take(i as int).map_values(
                    |m: PerpMarketConfigView| parsed_market(m),
                ),
            decreases group.perp_markets.len() - i,
        {
            let market = &group.perp_markets[i];
            proof {
                assert(all.take(i + 1).drop_last() =~= all.take(i as int));
            }
            let market_id = match parse_account_id(market.public_key.as_str()) {
                Some(id) => id,
                None => {
                    proof {
                        lemma_market_error_stays(all, i + 1);
                    }
                    return Err(ConfigError::MarketKey(i));
                },
            };
            let event_queue_id = match parse_account_id(market.events_key.as_str()) {
                Some(id) => id,
                None => {
                    proof {
                        lemma_market_error_stays(all, i + 1);
                    }
                    return Err(ConfigError::EventsKey(i));
                },
            };
            markets.push(PerpMarket { market_id, event_queue_id });
            i += 1;
        }
        assert(all.take(i as int) =~= all);
        let group_id = match parse_account_id(group.public_key.as_str()) {
            Some(id) => id,
            None => { return Err(ConfigError::GroupKey); },
        };
        let cache_id = match parse_account_id(group.cache_key.as_str()) {
            Some(id) => id,
            None => { return Err(ConfigError::CacheKey); },
        };
        let program_id = match parse_account_id(group.mango_program_id.as_str()) {
            Some(id) => id,
            None => { return Err(ConfigError::ProgramId); },
        };
        Ok(GroupContext { program_id, group_id, cache_id, markets })
    }
}

/// A wrong identifier among the first `n` markets is the first wrong one
/// among all of them.
proof fn lemma_market_error_stays(markets: Seq<PerpMarketConfigView>, n: int)
    requires
        0 <= n <= markets.len(),
        market_error(markets.take(n)) is Some,
    ensures
        market_error(markets) == market_error(markets.take(n)),
    decreases markets.len(),
{
    if n == markets.len() {
        assert(markets.take(n) =~= markets);
    } else {
        assert(markets.drop_last().take(n) =~= markets.take(n));
        lemma_market_error_stays(markets.drop_last(), n);
    }
}

/// Says what the event source is to deliver for a group.
pub fn filter_config(group: &GroupConfig) -> (filter: FilterConfig)
    ensures
        filter@ == filter_of(group@),
{
    let mut program_ids: Vec<String> = Vec::new();
    program_ids.push(group.mango_program_id.clone());
    let mut account_ids: Vec<String> = Vec::new();
    let ghost all = group@.perp_markets;
    let mut i: usize = 0;
    while i < group.perp_markets.len()
        invariant
            i <= group.perp_markets.len(),
            all == group.perp_markets.deep_view(),
            account_ids@.len() == i,
            account_ids.deep_view() == all.take(i as int).map_values(
                |m: PerpMarketConfigView| m.events_key,
            ),
        decreases group.perp_markets.len() - i,
    {
        let ghost before = account_ids.deep_view();
        let key = group.perp_markets[i].events_key.clone();
        account_ids.push(key);
        proof {
            let now = account_ids.deep_view();
            let want = all.take(i + 1).map_values(|m: PerpMarketConfigView| m.events_key);
            assert forall|j: int| 0 <= j < now.len() implies now[j] == want[j] by {
                if j < i {
                    assert(now[j] == before[j]);
                }
            }
        }
        i += 1;
    }
    assert(all.take(i as int) =~= all);
    let filter = FilterConfig { program_ids, account_ids };
    assert(filter@.program_ids =~= filter_of(group@).program_ids);
    filter
}

} // verus!
