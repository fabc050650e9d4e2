//! The reading endpoints of the gateway: the parameters each sends to its
//! backend, with the defaults for what the query leaves out, and the view of
//! an order it answers with.
use vstd::prelude::*;
use crate::gateway::{parse_user_id_i64, CallOutcome};

verus! {

// ---------- market data ----------

/// The market a market-data endpoint reads: the queried one (as `as` casts
/// it to `i64`), else market 1.
pub open spec fn market_or_first(market_id: Option<u64>) -> i64 {
    match market_id {
        Some(m) => m as i64,
        None => 1,
    }
}

fn market_or_first_of(market_id: Option<u64>) -> (r: i64)
    ensures
        r == market_or_first(market_id),
{
    match market_id {
        Some(m) => m as i64,
        None => 1,
    }
}

/// The query of the order-book depth endpoint.
#[derive(Debug, Clone, Default)]
pub struct DepthQuery {
    pub market_id: Option<u64>,
    pub depth: Option<i32>,
}

/// What the depth endpoint asks the market-data service for.
#[derive(Debug, Clone, Copy, PartialEq, Eq, Structural)]
pub struct DepthParams {
    pub market_id: i64,
    pub depth: i32,
}

/// The depth request: the market, and 20 levels unless the query says.
pub fn depth_params(query: &DepthQuery) -> (r: DepthParams)
    ensures
        r.market_id == market_or_first(query.market_id),
        r.depth == match query.depth {
            Some(d) => d,
            None => 20i32,
        },
{
    let depth = match query.depth {
        Some(d) => d,
        None => 20,
    };
    DepthParams { market_id: market_or_first_of(query.market_id), depth }
}

/// The query of the 24-hour ticker endpoint.
#[derive(Debug, Clone, Default)]
pub struct TickerQuery {
    pub market_id: Option<u64>,
}

/// The market the ticker endpoint asks about.
pub fn ticker_market(query: &TickerQuery) -> (r: i64)
    ensures
        r == market_or_first(query.market_id),
{
    market_or_first_of(query.market_id)
}

/// The query of the candlestick endpoint.
#[derive(Debug, Clone, Default)]
pub struct KlineQuery {
    pub market_id: Option<u64>,
    pub interval: Option<String>,
    pub start_time: Option<i64>,
    pub end_time: Option<i64>,
    pub limit: Option<i32>,
}

/// What the candlestick endpoint asks for.
#[derive(Debug, Clone)]
pub struct KlineParams {
    pub market_id: i64,
    pub interval: String,
    pub start_time: i64,
    pub end_time: i64,
    pub limit: i32,
}

/// The candlestick request: interval `1h`, times 0 and 100 candles unless
/// the query says otherwise.
pub fn kline_params(query: KlineQuery) -> (r: KlineParams)
    ensures
        r.market_id == market_or_first(query.market_id),
        match query.interval {
            Some(i) => r.interval == i,
            None => r.interval@ == "1h"@,
        },
        r.start_time == match query.start_time {
            Some(t) => t,
            None => 0i64,
        },
        r.end_time == match query.end_time {
            Some(t) => t,
            None => 0i64,
        },
        r.limit == match query.limit {
            Some(l) => l,
            None => 100i32,
        },
{
    let market_id = market_or_first_of(query.market_id);
    let interval = match query.interval {
        Some(i) => i,
        None => String::from_str("1h"),
    };
    let start_time = match query.start_time {
        Some(t) => t,
        None => 0,
    };
    let end_time = match query.end_time {
        Some(t) => t,
        None => 0,
    };
    let limit = match query.limit {
        Some(l) => l,
        None => 100,
    };
    KlineParams { market_id, interval, start_time, end_time, limit }
}

/// The query of the recent-trades endpoint.
#[derive(Debug, Clone, Default)]
pub struct TradesQuery {
    pub market_id: Option<u64>,
    pub outcome_id: Option<u64>,
    pub limit: Option<i32>,
}

/// What the recent-trades endpoint asks for (always from the newest trade).
#[derive(Debug, Clone, Copy, PartialEq, Eq, Structural)]
pub struct TradesParams {
    pub market_id: i64,
    pub outcome_id: i64,
    pub limit: i32,
    pub from_trade_id: i64,
}

/// The recent-trades request: every outcome (0) and 50 trades unless the
/// query says otherwise.
pub fn trades_params(query: &TradesQuery) -> (r: TradesParams)
    ensures
        r.market_id == market_or_first(query.market_id),
        r.outcome_id == match query.outcome_id {
            Some(o) => o as i64,
            None => 0i64,
        },
        r.limit == match query.limit {
            Some(l) => l,
            None => 50i32,
        },
        r.from_trade_id == 0,
{
    let outcome_id: i64 = match query.outcome_id {
        Some(o) => o as i64,
        None => 0,
    };
    let limit = match query.limit {
        Some(l) => l,
        None => 50,
    };
    TradesParams {
        market_id: market_or_first_of(query.market_id),
        outcome_id,
        limit,
        from_trade_id: 0,
    }
}

// ---------- prediction markets ----------

/// The query of the market list.
#[derive(Debug, Clone, Default)]
pub struct ListMarketsQuery {
    pub category: Option<String>,
    pub status: Option<String>,
    pub page: Option<i32>,
    pub page_size: Option<i32>,
}

/// What the market list asks for.
#[derive(Debug, Clone)]
pub struct ListMarketsParams {
    pub category: String,
    pub status: String,
    pub page: i32,
    pub page_size: i32,
}

/// The market-list request: any category and status (empty), page 1 of 20
/// unless the query says otherwise.
pub fn list_markets_params(query: ListMarketsQuery) -> (r: ListMarketsParams)
    ensures
        match query.category {
            Some(c) => r.category == c,
            None => r.category@.len() == 0,
        },
        match query.status {
            Some(s) => r.status == s,
            None => r.status@.len() == 0,
        },
        r.page == match query.page {
            Some(p) => p,
            None => 1i32,
        },
        r.page_size == match query.page_size {
            Some(p) => p,
            None => 20i32,
        },
{
    let category = match query.category {
        Some(c) => c,
        None => String::new(),
    };
    let status = match query.status {
        Some(s) => s,
        None => String::new(),
    };
    let page = match query.page {
        Some(p) => p,
        None => 1,
    };
    let page_size = match query.page_size {
        Some(p) => p,
        None => 20,
    };
    ListMarketsParams { category, status, page, page_size }
}

// ---------- portfolio ----------

/// The query of the balance endpoint.
#[derive(Debug, Clone, Default)]
pub struct GetBalanceQuery {
    pub asset: Option<String>,
}

/// The asset whose balance is asked: the queried one, else `USDC`.
pub fn balance_asset(query: GetBalanceQuery) -> (r: String)
    ensures
        match query.asset {
            Some(a) => r == a,
            None => r@ == "USDC"@,
        },
{
    match query.asset {
        Some(a) => a,
        None => String::from_str("USDC"),
    }
}

/// The query of the positions endpoint.
#[derive(Debug, Clone, Default)]
pub struct GetPositionsQuery {
    pub market_id: Option<u64>,
}

/// The market whose positions are asked: the queried one, else 0 (all).
pub fn positions_market(query: &GetPositionsQuery) -> (r: u64)
    ensures
        r == match query.market_id {
            Some(m) => m,
            None => 0u64,
        },
{
    match query.market_id {
        Some(m) => m,
        None => 0,
    }
}

} // verus!

verus! {

// ---------- orders ----------

/// The query of the order list.
#[derive(Debug, Clone, Default)]
pub struct GetOrdersQuery {
    pub market_id: Option<u64>,
    pub status: Option<String>,
    pub limit: Option<usize>,
}

/// What the order list asks the order service for.
#[derive(Debug, Clone)]
pub struct UserOrdersParams {
    pub user_id: i64,
    pub market_id: i64,
    pub status: String,
    pub page: i32,
    pub page_size: i32,
}

/// The order-list request: the user's numeric id, the market (0 for all),
/// the status (empty for any), the first page, of the limit or 50.
pub fn user_orders_params(user_id: &str, query: GetOrdersQuery) -> (r: UserOrdersParams)
    ensures
        r.user_id == crate::gateway::i64_or_zero(crate::gateway::remove_all(user_id@, "usr_"@)),
        r.market_id == match query.market_id {
            Some(m) => m as i64,
            None => 0i64,
        },
        match query.status {
            Some(s) => r.status == s,
            None => r.status@.len() == 0,
        },
        r.page == 1,
        r.page_size == match query.limit {
            Some(l) => l as i32,
            None => 50i32,
        },
{
    let status = match query.status {
        Some(s) => s,
        None => String::new(),
    };
    UserOrdersParams {
        user_id: parse_user_id_i64(user_id),
        market_id: crate::gateway::orders_market_filter(query.market_id),
        status,
        page: 1,
        page_size: crate::gateway::orders_page_size(query.limit),
    }
}

/// An order as the gateway shows it.
#[derive(Debug, Clone)]
pub struct OrderResponse {
    pub order_id: String,
    pub market_id: u64,
    pub outcome_id: u64,
    pub side: String,
    pub order_type: String,
    pub price: String,
    pub quantity: String,
    pub filled_quantity: String,
    pub status: String,
    pub created_at: String,
}

/// An order as the order service stores it.
#[derive(Debug, Clone)]
pub struct StoredOrder {
    pub id: String,
    pub market_id: i64,
    pub outcome_id: i64,
    pub side: String,
    pub order_type: String,
    pub price: String,
    pub quantity: String,
    pub filled_quantity: String,
    pub status: String,
    pub created_at: i64,
}

/// The RFC 3339 text (UTC, `+00:00`) of a time given in whole seconds since
/// the Unix epoch; `None` where the time is out of the calendar's range.
pub uninterp spec fn rfc3339_utc(secs: i64) -> Option<Seq<char>>;

/// `chrono::DateTime::from_timestamp(secs, 0)`, then `to_rfc3339` of the
/// time it gives. The contract names the text (`rfc3339_utc`), as a function
/// of the seconds alone; it does not say which seconds are out of range.
#[verifier::external_body]
fn rfc3339_of_seconds(secs: i64) -> (r: Option<String>)
    ensures
        match r {
            Some(t) => rfc3339_utc(secs) == Some(t@),
            None => rfc3339_utc(secs) is None,
        },
{
    match chrono::DateTime::from_timestamp(secs, 0) {
        Some(dt) => Some(dt.to_rfc3339()),
        None => None,
    }
}

/// The shown order of a stored one, given the text of its creation time
/// (empty when there is none); the ids as `as` casts them to `u64`.
pub fn order_response(order: StoredOrder, created_text: Option<String>) -> (r: OrderResponse)
    ensures
        r.order_id == order.id,
        r.market_id == order.market_id as u64,
        r.outcome_id == order.outcome_id as u64,
        r.side == order.side,
        r.order_type == order.order_type,
        r.price == order.price,
        r.quantity == order.quantity,
        r.filled_quantity == order.filled_quantity,
        r.status == order.status,
        match created_text {
            Some(t) => r.created_at == t,
            None => r.created_at@.len() == 0,
        },
{
    let created_at = match created_text {
        Some(t) => t,
        None => String::new(),
    };
    OrderResponse {
        order_id: order.id,
        market_id: order.market_id as u64,
        outcome_id: order.outcome_id as u64,
        side: order.side,
        order_type: order.order_type,
        price: order.price,
        quantity: order.quantity,
        filled_quantity: order.filled_quantity,
        status: order.status,
        created_at,
    }
}

/// The shown order of a stored one, its creation time written in RFC 3339.
pub fn order_view(order: StoredOrder) -> (r: OrderResponse)
    ensures
        r.order_id == order.id,
        r.market_id == order.market_id as u64,
        r.outcome_id == order.outcome_id as u64,
        r.side == order.side,
        r.order_type == order.order_type,
        r.price == order.price,
        r.quantity == order.quantity,
        r.filled_quantity == order.filled_quantity,
        r.status == order.status,
        match rfc3339_utc(order.created_at) {
            Some(t) => r.created_at@ == t,
            None => r.created_at@.len() == 0,
        },
{
    let text = rfc3339_of_seconds(order.created_at);
    order_response(order, text)
}

/// The answer to an order lookup.
#[derive(Debug)]
pub enum OrderLookup {
    /// 200 with the order.
    Found(OrderResponse),
    /// 404: no such order.
    NotFound,
    /// 500: the order service failed; the error as printed.
    Failed(String),
    /// 503: the order service could not be reached.
    Unavailable,
}

impl OrderLookup {
    /// The HTTP status of the answer.
    pub fn status(&self) -> (r: u16)
        ensures
            r == match self {
                OrderLookup::Found(_) => 200u16,
                OrderLookup::NotFound => 404u16,
                OrderLookup::Failed(_) => 500u16,
                OrderLookup::Unavailable => 503u16,
            },
    {
        match self {
            OrderLookup::Found(_) => 200,
            OrderLookup::NotFound => 404,
            OrderLookup::Failed(_) => 500,
            OrderLookup::Unavailable => 503,
        }
    }
}

/// The answer to an order lookup, by what the order service gave.
pub fn order_lookup(outcome: CallOutcome<Option<StoredOrder>>) -> (r: OrderLookup)
    ensures
        match outcome {
            CallOutcome::Answered(Some(o)) => r matches OrderLookup::Found(v) && v.order_id == o.id
                && v.market_id == o.market_id as u64 && v.outcome_id == o.outcome_id as u64
                && v.side == o.side && v.order_type == o.order_type && v.price == o.price
                && v.quantity == o.quantity && v.filled_quantity == o.filled_quantity && v.status
                == o.status && match rfc3339_utc(o.created_at) {
                Some(t) => v.created_at@ == t,
                None => v.created_at@.len() == 0,
            },
            CallOutcome::Answered(None) => r is NotFound,
            CallOutcome::Failed(e) => r == OrderLookup::Failed(e.text),
            CallOutcome::Unreachable => r is Unavailable,
        },
{
    match outcome {
        CallOutcome::Answered(Some(o)) => OrderLookup::Found(order_view(o)),
        CallOutcome::Answered(None) => OrderLookup::NotFound,
        CallOutcome::Failed(e) => OrderLookup::Failed(e.text),
        CallOutcome::Unreachable => OrderLookup::Unavailable,
    }
}

} // verus!
