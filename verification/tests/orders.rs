use nbx_api::accounts::{
    asset_path, cancel_order_path, into_orders, market_orders_of_account_path, orders_path, Events, Execution,
    Fill, MarketOrder, TimeInForce, TimeInForceType, Type, UnsupportedOrder,
};
use nbx_api::markets::{book_path, book_query, market_path, trades_path};
use nbx_api::{CreateOrder, Side};

fn execution() -> Execution {
    Execution {
        typ: Type::Limit,
        price: Some("100".to_string()),
        time_in_force: TimeInForce { typ: TimeInForceType::GoodTilCanceled },
        freeze: None,
    }
}

fn market_order(id: &str) -> MarketOrder {
    MarketOrder {
        id: id.to_string(),
        quantity: "0.5".to_string(),
        side: Side::Sell,
        execution: execution(),
        events: Events { created_at: "t".to_string(), opened_at: None, closed_at: None, rejected_at: None },
        fills: vec![Fill {
            quantity: "0.1".to_string(),
            price: "100".to_string(),
            fee: "0".to_string(),
            created_at: "t".to_string(),
        }],
    }
}

#[test]
fn sell_limit_order() {
    let r = CreateOrder::new("ETH-NOK").sell("0.12345").limit("18000.00");
    assert_eq!(r.market, "ETH-NOK");
    assert_eq!(r.quantity, "0.12345");
    assert_eq!(r.side, Side::Sell);
    assert_eq!(r.execution.typ, Type::Limit);
    assert_eq!(r.execution.price.as_deref(), Some("18000.00"));
    assert_eq!(r.execution.time_in_force.typ, TimeInForceType::GoodTilCanceled);
    assert!(r.execution.freeze.is_none());
}

#[test]
fn sell_market_order() {
    let r = CreateOrder::new("ETH-NOK").sell("1").market();
    assert_eq!(r.side, Side::Sell);
    assert_eq!(r.execution.typ, Type::Market);
    assert_eq!(r.execution.price, None);
    assert_eq!(r.execution.time_in_force.typ, TimeInForceType::ImmediateOrCancel);
}

#[test]
fn buy_orders() {
    let r = CreateOrder::new("BTC-NOK").buy("2").limit("5");
    assert_eq!(r.market, "BTC-NOK");
    assert_eq!(r.quantity, "2");
    assert_eq!(r.side, Side::Buy);
    assert_eq!(r.execution.typ, Type::Limit);
    assert_eq!(r.execution.price.as_deref(), Some("5"));
    assert_eq!(CreateOrder::new("BTC-NOK").buy("2").market().err(), Some(UnsupportedOrder::MarketBuy));
}

#[test]
fn time_in_force_changes_only_itself() {
    let r = CreateOrder::new("ETH-NOK").sell("1").limit("2").time_in_force(TimeInForceType::ImmediateOrCancel);
    assert_eq!(r.execution.time_in_force.typ, TimeInForceType::ImmediateOrCancel);
    assert_eq!(r.execution.typ, Type::Limit);
    assert_eq!(r.execution.price.as_deref(), Some("2"));
    assert_eq!(r.market, "ETH-NOK");
    assert_eq!(r.side, Side::Sell);
}

#[test]
fn side_names() {
    assert_eq!(Side::Buy.as_str(), "BUY");
    assert_eq!(Side::Sell.as_str(), "SELL");
}

#[test]
fn market_orders_get_their_market() {
    let o = market_order("1").into_order("ETH-NOK");
    assert_eq!(o.id, "1");
    assert_eq!(o.market, "ETH-NOK");
    assert_eq!(o.quantity, "0.5");
    assert_eq!(o.fills.len(), 1);
    let all = into_orders(vec![market_order("a"), market_order("b"), market_order("c")], "X");
    let ids: Vec<&str> = all.iter().map(|o| o.id.as_str()).collect();
    assert_eq!(ids, vec!["a", "b", "c"]);
    assert!(all.iter().all(|o| o.market == "X"));
    assert!(into_orders(vec![], "X").is_empty());
}

#[test]
fn endpoint_paths() {
    assert_eq!(orders_path("acc"), "/accounts/acc/orders");
    assert_eq!(market_orders_of_account_path("acc", "ETH-NOK"), "/accounts/acc/markets/ETH-NOK/orders");
    assert_eq!(asset_path("acc", "ETH"), "/accounts/acc/assets/ETH");
    assert_eq!(cancel_order_path("ETH-NOK", "42"), "/markets/ETH-NOK/orders/42");
    assert_eq!(trades_path("ETH-NOK"), "/markets/ETH-NOK/trades");
    assert_eq!(book_path("ETH-NOK"), "/markets/ETH-NOK/orders");
    assert_eq!(market_path("ETH-NOK"), "/markets/ETH-NOK");
}

#[test]
fn book_query_parameters() {
    assert!(book_query(None).is_empty());
    assert_eq!(book_query(Some(Side::Sell)), vec![("side".to_string(), "SELL".to_string())]);
    assert_eq!(book_query(Some(Side::Buy)), vec![("side".to_string(), "BUY".to_string())]);
}
