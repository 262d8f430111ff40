use nbx_api::book::OrderBook;
use nbx_api::bot::{
    book_sides, feed_action, feed_expired, fill_times, fill_type_label, keep_paging, key_action, key_effect,
    next_order_delay_secs, order_delay_secs, orders_in_market, CancelSweep, FeedAction, FeedOutcome, FeedPhase, Key,
    KeyAction, KeyEffect, SellSchedule, ERROR_DELAY_MS, FEED_RETRY_PAUSE_SECS, FIRST_ORDER_DELAY_MS,
};
use nbx_api::history::{trim_start, window_start, PriceHistory};
use nbx_api::websocket::{events_url, step, Message, Step};
use nbx_api::accounts::{self, Events, Execution, TimeInForce, TimeInForceType, Type};
use nbx_api::{Order, Side};

fn order(id: &str, side: Side, price: &str) -> Order {
    Order {
        id: id.to_string(),
        side,
        price: price.to_string(),
        quantity: "1".to_string(),
        timestamp: None,
    }
}

fn account_order(id: &str, market: &str) -> accounts::Order {
    accounts::Order {
        id: id.to_string(),
        market: market.to_string(),
        quantity: "1".to_string(),
        side: Side::Sell,
        execution: Execution {
            typ: Type::Market,
            price: None,
            time_in_force: TimeInForce { typ: TimeInForceType::ImmediateOrCancel },
            freeze: None,
        },
        events: Events { created_at: "t".to_string(), opened_at: None, closed_at: None, rejected_at: None },
        fills: vec![],
    }
}

#[test]
fn book_insert_get_remove() {
    let mut book = OrderBook::new();
    assert_eq!(book.len(), 0);
    book.insert(order("a", Side::Sell, "10"));
    book.insert(order("b", Side::Buy, "9"));
    assert_eq!(book.len(), 2);
    assert_eq!(book.get(&"a".to_string()).unwrap().price, "10");
    book.insert(order("a", Side::Sell, "11"));
    assert_eq!(book.len(), 2);
    assert_eq!(book.get(&"a".to_string()).unwrap().price, "11");
    let removed = book.remove(&"a".to_string()).unwrap();
    assert_eq!(removed.price, "11");
    assert!(book.get(&"a".to_string()).is_none());
    assert!(book.remove(&"a".to_string()).is_none());
    assert_eq!(book.len(), 1);
    assert_eq!(book.orders().len(), 1);
    book.clear();
    assert_eq!(book.len(), 0);
}

#[test]
fn book_quantity_update() {
    let mut book = OrderBook::new();
    book.insert(order("a", Side::Sell, "10"));
    assert!(book.set_quantity(&"a".to_string(), "0.25".to_string()));
    let a = book.get(&"a".to_string()).unwrap();
    assert_eq!(a.quantity, "0.25");
    assert_eq!(a.price, "10");
    assert!(!book.set_quantity(&"zz".to_string(), "1".to_string()));
    assert_eq!(book.len(), 1);
}

#[test]
fn book_remove_undoes_insert() {
    let mut book = OrderBook::new();
    book.insert(order("a", Side::Sell, "10"));
    book.insert(order("n", Side::Buy, "5"));
    book.remove(&"n".to_string());
    assert_eq!(book.len(), 1);
    assert_eq!(book.get(&"a".to_string()).unwrap().price, "10");
}

#[test]
fn book_sides_order() {
    let sorted = vec![
        order("1", Side::Buy, "8"),
        order("2", Side::Buy, "9"),
        order("3", Side::Sell, "10"),
        order("4", Side::Sell, "11"),
    ];
    let (sells, buys) = book_sides(&sorted);
    let s: Vec<&str> = sells.iter().map(|o| o.id.as_str()).collect();
    let b: Vec<&str> = buys.iter().map(|o| o.id.as_str()).collect();
    assert_eq!(s, vec!["3", "4"]);
    assert_eq!(b, vec!["2", "1"]);
    assert_eq!(sells.len() + buys.len(), sorted.len());
}

#[test]
fn fills_of_a_market() {
    let orders = vec![account_order("1", "ETH-NOK"), account_order("2", "BTC-NOK"), account_order("3", "ETH-NOK")];
    let selected = orders_in_market(&orders, &"ETH-NOK".to_string());
    let ids: Vec<&str> = selected.iter().map(|o| o.id.as_str()).collect();
    assert_eq!(ids, vec!["1", "3"]);
}

#[test]
fn fill_labels() {
    assert_eq!(fill_type_label(Type::Market, "100"), "M");
    assert_eq!(fill_type_label(Type::Limit, "18000.00"), "L(18000.00)");
}

#[test]
fn trimming_cuts_before_the_first_old_sample() {
    assert_eq!(trim_start(&vec![], 10), 0);
    assert_eq!(trim_start(&vec![1, 2, 3], 10), 0);
    assert_eq!(trim_start(&vec![1, 2, 30, 4], 10), 2);
    assert_eq!(trim_start(&vec![11, 2], 10), 0);
    assert_eq!(trim_start(&vec![10, 10], 10), 0);
}

#[test]
fn trimming_a_chronological_history_keeps_everything() {
    // Oldest first, as samples are added: the first sample is the oldest.
    assert_eq!(trim_start(&vec![50, 40, 30, 5], 10), 0);
}

#[test]
fn window_of_recent_samples() {
    assert_eq!(window_start(&vec![], 10), 0);
    assert_eq!(window_start(&vec![50, 40, 9, 5], 10), 2);
    assert_eq!(window_start(&vec![5, 9], 10), 0);
    assert_eq!(window_start(&vec![5, 10], 10), 2);
    assert_eq!(window_start(&vec![1, 20, 3], 10), 2);
}

#[test]
fn price_history_samples() {
    let mut h: PriceHistory<f64> = PriceHistory::new();
    assert!(h.last().is_none());
    h.add(1.5);
    h.add(2.5);
    assert_eq!(h.last(), Some(&2.5));
    assert_eq!(h.samples().len(), 2);
    assert_eq!(h.window(60_000_000_000), 0);
    assert_eq!(h.window(0), 2);
    h.trim(0);
    assert_eq!(h.samples().len(), 2);
    assert_eq!(h.last(), Some(&2.5));
    h.trim(60_000_000_000);
    assert_eq!(h.samples().len(), 2);
    assert_eq!(h.last(), Some(&2.5));
}

#[test]
fn order_delays() {
    assert_eq!(order_delay_secs(0, true), 1800);
    assert_eq!(order_delay_secs(299, true), 2099);
    assert_eq!(order_delay_secs(299, false), 1501);
    let mut seen = std::collections::HashSet::new();
    let mut later = false;
    let mut earlier = false;
    for _ in 0..200 {
        let d = next_order_delay_secs();
        assert!(1500 < d && d < 2100);
        seen.insert(d);
        later |= d > 1800;
        earlier |= d < 1800;
    }
    // The variance and the direction are drawn at random.
    assert!(seen.len() > 1);
    assert!(later && earlier);
}

#[test]
fn cancel_sweep() {
    let s = CancelSweep::new();
    assert!(!s.retry_now());
    assert!(s.all_canceled());
    let mut s = CancelSweep::new();
    s.record(false, false);
    s.record(true, false);
    assert!(s.retry_now());
    assert!(s.all_canceled());
    s.record(false, true);
    assert!(!s.retry_now());
    assert!(!s.all_canceled());
}

#[test]
fn keys() {
    assert_eq!(key_action(Key::Esc, false, false), KeyAction::Quit);
    assert_eq!(key_action(Key::Char('q'), false, false), KeyAction::Quit);
    assert_eq!(key_action(Key::Char('c'), false, true), KeyAction::Quit);
    assert_eq!(key_action(Key::Char('c'), false, false), KeyAction::Nothing);
    assert_eq!(key_action(Key::Char('B'), true, false), KeyAction::ForceOrder);
    assert_eq!(key_action(Key::Char('B'), false, false), KeyAction::Nothing);
    assert_eq!(key_action(Key::PageUp, true, false), KeyAction::AdjustLimit(100));
    assert_eq!(key_action(Key::PageUp, false, false), KeyAction::AdjustLimit(10));
    assert_eq!(key_action(Key::PageDown, true, false), KeyAction::AdjustLimit(-100));
    assert_eq!(key_action(Key::PageDown, false, false), KeyAction::AdjustLimit(-10));
    assert_eq!(key_action(Key::Char('i'), false, false), KeyAction::ToggleIgnoreCoinbase);
    assert_eq!(key_action(Key::Other, true, true), KeyAction::Nothing);
}

#[test]
fn stream_steps() {
    assert_eq!(events_url("ETH-NOK"), "wss://api.nbx.com/markets/ETH-NOK/events");
    assert!(matches!(step(None), Step::End));
    assert!(matches!(step(Some(Message::Text("{}".to_string()))), Step::Decode(t) if t == "{}"));
    assert!(matches!(step(Some(Message::Ping(vec![1, 2]))), Step::Pong(d) if d == vec![1, 2]));
    assert!(matches!(step(Some(Message::Pong(vec![1]))), Step::Skip));
    assert!(matches!(step(Some(Message::Binary(vec![1]))), Step::Skip));
    assert!(matches!(step(Some(Message::Close)), Step::Skip));
    assert!(matches!(step(Some(Message::Frame)), Step::Skip));
}

#[test]
fn key_effects() {
    let toggle = key_action(Key::Char('i'), true, true);
    let once = key_effect(toggle, false);
    assert_eq!(once, KeyEffect { quit: false, force_order: false, limit_delta: 0, ignoring_coinbase: true });
    let twice = key_effect(toggle, once.ignoring_coinbase);
    assert!(!twice.ignoring_coinbase);
    let up = key_effect(key_action(Key::PageUp, true, false), true);
    assert_eq!(up, KeyEffect { quit: false, force_order: false, limit_delta: 100, ignoring_coinbase: true });
    let b = key_effect(key_action(Key::Char('B'), true, false), false);
    assert!(b.force_order && !b.quit && b.limit_delta == 0 && !b.ignoring_coinbase);
    assert!(key_effect(KeyAction::Quit, true).quit);
}

#[test]
fn sell_schedule() {
    let mut s = SellSchedule::new(1000);
    assert!(!s.is_due(1000, false));
    assert!(s.is_due(1000, true));
    assert!(!s.is_due(1000 + FIRST_ORDER_DELAY_MS - 1, false));
    assert!(s.is_due(1000 + FIRST_ORDER_DELAY_MS, false));
    s.force(2000);
    assert!(s.is_due(2000, false));
    let delay = s.order_placed(5000);
    assert!(1500 < delay && delay < 2100);
    assert!(!s.is_due(5000 + delay * 1000 - 1, false));
    assert!(s.is_due(5000 + delay * 1000, false));
    s.order_failed(9000);
    assert!(!s.is_due(9000 + ERROR_DELAY_MS - 1, false));
    assert!(s.is_due(9000 + ERROR_DELAY_MS, false));
    let mut sweep = CancelSweep::new();
    sweep.record(true, false);
    s.after_sweep(&sweep, 9500);
    assert!(s.is_due(9500, false));
    let mut t = SellSchedule::new(0);
    let mut failed = CancelSweep::new();
    failed.record(true, true);
    t.after_sweep(&failed, 10);
    assert!(!t.is_due(10, false));
}

#[test]
fn paging_stops_at_the_limit() {
    assert!(keep_paging(2, 0, 15));
    assert!(keep_paging(2, 14, 15));
    assert!(!keep_paging(2, 15, 15));
    assert!(!keep_paging(3, 20, 15));
    // the page after the first is asked for however many fills it gave
    assert!(keep_paging(1, 20, 15));
    assert!(keep_paging(1, 15, 15));
}

#[test]
fn fill_creation_times() {
    let mut o = account_order("1", "ETH-NOK");
    o.fills = vec![
        accounts::Fill {
            quantity: "1".to_string(),
            price: "1".to_string(),
            fee: "0".to_string(),
            created_at: "2023-03-01T12:30:45.123456+00:00".to_string(),
        },
        accounts::Fill {
            quantity: "1".to_string(),
            price: "1".to_string(),
            fee: "0".to_string(),
            created_at: "1970-01-01T01:00:00.000001+01:00".to_string(),
        },
        accounts::Fill {
            quantity: "1".to_string(),
            price: "1".to_string(),
            fee: "0".to_string(),
            created_at: "1970-01-01T00:00:00.000001+00:00".to_string(),
        },
        accounts::Fill {
            quantity: "1".to_string(),
            price: "1".to_string(),
            fee: "0".to_string(),
            created_at: "yesterday".to_string(),
        },
    ];
    let times = fill_times(&o);
    // Times are read in UTC: a text with another offset does not parse.
    assert_eq!(times, vec![Some(1_677_673_845_123_456), None, Some(1), None]);
}

#[test]
fn feed_supervision() {
    assert!(!feed_expired(0));
    assert!(!feed_expired(3_600_000_000_000));
    assert!(feed_expired(3_600_000_000_001));
    let a = feed_action(FeedOutcome::BookFailed);
    assert_eq!(a, FeedAction { report_error: false, pause: true, next: FeedPhase::Restart });
    let a = feed_action(FeedOutcome::PageFailed);
    assert_eq!(a, FeedAction { report_error: false, pause: true, next: FeedPhase::Connect });
    let a = feed_action(FeedOutcome::ConnectFailed);
    assert_eq!(a, FeedAction { report_error: true, pause: true, next: FeedPhase::Restart });
    let a = feed_action(FeedOutcome::Event);
    assert_eq!(a, FeedAction { report_error: false, pause: false, next: FeedPhase::ReadNext });
    let a = feed_action(FeedOutcome::StreamEnded);
    assert_eq!(a, FeedAction { report_error: false, pause: false, next: FeedPhase::Restart });
    let a = feed_action(FeedOutcome::StreamFailed);
    assert_eq!(a, FeedAction { report_error: true, pause: true, next: FeedPhase::Restart });
    assert_eq!(FEED_RETRY_PAUSE_SECS, 5);
}
