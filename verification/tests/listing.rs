use exchange_core::gateway::{CallError, CallOutcome};
use exchange_core::listing::{
    balance_asset, depth_params, kline_params, list_markets_params, order_lookup, order_response, order_view,
    positions_market, ticker_market, trades_params, user_orders_params, DepthParams, DepthQuery, GetBalanceQuery,
    GetOrdersQuery, GetPositionsQuery, KlineQuery, ListMarketsQuery, OrderLookup, StoredOrder, TickerQuery,
    TradesQuery,
};

fn stored(created_at: i64) -> StoredOrder {
    StoredOrder {
        id: "ord_1".to_string(),
        market_id: 3,
        outcome_id: 2,
        side: "buy".to_string(),
        order_type: "limit".to_string(),
        price: "0.55".to_string(),
        quantity: "10".to_string(),
        filled_quantity: "4".to_string(),
        status: "partial".to_string(),
        created_at,
    }
}

#[test]
fn market_data_defaults() {
    assert_eq!(depth_params(&DepthQuery::default()), DepthParams { market_id: 1, depth: 20 });
    assert_eq!(depth_params(&DepthQuery { market_id: Some(7), depth: Some(5) }), DepthParams { market_id: 7, depth: 5 });
    assert_eq!(ticker_market(&TickerQuery::default()), 1);
    assert_eq!(ticker_market(&TickerQuery { market_id: Some(9) }), 9);
    let k = kline_params(KlineQuery::default());
    assert_eq!((k.market_id, k.interval.as_str(), k.start_time, k.end_time, k.limit), (1, "1h", 0, 0, 100));
    let k = kline_params(KlineQuery {
        market_id: Some(4),
        interval: Some("5m".to_string()),
        start_time: Some(10),
        end_time: Some(20),
        limit: Some(3),
    });
    assert_eq!((k.market_id, k.interval.as_str(), k.start_time, k.end_time, k.limit), (4, "5m", 10, 20, 3));
    let t = trades_params(&TradesQuery::default());
    assert_eq!((t.market_id, t.outcome_id, t.limit, t.from_trade_id), (1, 0, 50, 0));
    let t = trades_params(&TradesQuery { market_id: Some(2), outcome_id: Some(6), limit: Some(8) });
    assert_eq!((t.market_id, t.outcome_id, t.limit), (2, 6, 8));
    // an id above i64::MAX is cast as `as` does
    assert_eq!(ticker_market(&TickerQuery { market_id: Some(u64::MAX) }), -1);
}

#[test]
fn market_list_and_portfolio_defaults() {
    let p = list_markets_params(ListMarketsQuery::default());
    assert_eq!((p.category.as_str(), p.status.as_str(), p.page, p.page_size), ("", "", 1, 20));
    let p = list_markets_params(ListMarketsQuery {
        category: Some("sports".to_string()),
        status: Some("open".to_string()),
        page: Some(3),
        page_size: Some(5),
    });
    assert_eq!((p.category.as_str(), p.status.as_str(), p.page, p.page_size), ("sports", "open", 3, 5));
    assert_eq!(balance_asset(GetBalanceQuery::default()), "USDC");
    assert_eq!(balance_asset(GetBalanceQuery { asset: Some("BTC".to_string()) }), "BTC");
    assert_eq!(positions_market(&GetPositionsQuery::default()), 0);
    assert_eq!(positions_market(&GetPositionsQuery { market_id: Some(12) }), 12);
}

#[test]
fn order_list_request() {
    let p = user_orders_params("usr_15", GetOrdersQuery::default());
    assert_eq!((p.user_id, p.market_id, p.status.as_str(), p.page, p.page_size), (15, 0, "", 1, 50));
    let p = user_orders_params(
        "x",
        GetOrdersQuery { market_id: Some(4), status: Some("open".to_string()), limit: Some(10) },
    );
    assert_eq!((p.user_id, p.market_id, p.status.as_str(), p.page, p.page_size), (0, 4, "open", 1, 10));
}

#[test]
fn order_views() {
    let v = order_response(stored(0), Some("T".to_string()));
    assert_eq!((v.order_id.as_str(), v.market_id, v.outcome_id, v.created_at.as_str()), ("ord_1", 3, 2, "T"));
    assert_eq!(order_response(stored(0), None).created_at, "");
    let v = order_view(stored(1431648000));
    assert_eq!(v.created_at, "2015-05-15T00:00:00+00:00");
    assert_eq!(v.filled_quantity, "4");
    assert_eq!(order_view(stored(0)).created_at, "1970-01-01T00:00:00+00:00");
    assert_eq!(order_view(stored(i64::MAX)).created_at, "");
    let mut neg = stored(0);
    neg.market_id = -1;
    assert_eq!(order_view(neg).market_id, u64::MAX);
}

#[test]
fn order_lookups() {
    let found = order_lookup(CallOutcome::Answered(Some(stored(60))));
    assert_eq!(found.status(), 200);
    match found {
        OrderLookup::Found(v) => assert_eq!(v.created_at, "1970-01-01T00:01:00+00:00"),
        _ => panic!("expected Found"),
    }
    assert_eq!(order_lookup(CallOutcome::Answered(None)).status(), 404);
    match order_lookup(CallOutcome::Failed(CallError { code: 13, text: "boom".to_string() })) {
        OrderLookup::Failed(m) => assert_eq!(m, "boom"),
        _ => panic!("expected Failed"),
    }
    assert_eq!(order_lookup(CallOutcome::Unreachable).status(), 503);
}
