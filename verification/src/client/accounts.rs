//! Orders of the account: the builder of order requests, the records that
//! the account endpoints return, and the paths of those endpoints.

use vstd::prelude::*;

use crate::text::{concat3, concat4, concat5};

verus! {

/// The side of an order.
#[derive(Clone, Copy, Debug, PartialEq, Eq, Structural)]
pub enum Side {
    Buy,
    Sell,
}

impl Side {
    /// The name of the side on the wire.
    pub open spec fn wire_name(self) -> Seq<char> {
        match self {
            Side::Buy => "BUY"@,
            Side::Sell => "SELL"@,
        }
    }

    /// The name of the side on the wire: `BUY` or `SELL`.
    pub fn as_str(&self) -> (s: &'static str)
        ensures
            s@ == self.wire_name(),
    {
        match self {
            Side::Buy => "BUY",
            Side::Sell => "SELL",
        }
    }
}

/// The execution type of an order.
#[derive(Clone, Copy, Debug, PartialEq, Eq, Structural)]
pub enum Type {
    Limit,
    Market,
}

/// How long an order stays on the book.
#[derive(Clone, Copy, Debug, PartialEq, Eq, Structural)]
pub enum TimeInForceType {
    GoodTilCanceled,
    ImmediateOrCancel,
}

#[derive(Debug)]
pub struct TimeInForce {
    pub typ: TimeInForceType,
}

#[derive(Clone, Copy, Debug, PartialEq, Eq, Structural)]
pub enum FreezeType {
    Amount,
}

#[derive(Debug)]
pub struct Freeze {
    pub typ: FreezeType,
    pub value: String,
}

/// How an order is executed.
#[derive(Debug)]
pub struct Execution {
    pub typ: Type,
    pub price: Option<String>,
    pub time_in_force: TimeInForce,
    pub freeze: Option<Freeze>,
}

/// A request to create an order, as it is posted to the account's orders.
#[derive(Debug)]
pub struct OrderRequest {
    pub market: String,
    pub quantity: String,
    pub side: Side,
    pub execution: Execution,
}

/// First step of building an order request: the market.
pub struct CreateOrder(String);

/// An order request that sells `quantity` on `market`, still missing its
/// execution.
pub struct CreateSellOrder {
    market: String,
    quantity: String,
}

/// An order request that buys `quantity` on `market`, still missing its
/// execution.
pub struct CreateBuyOrder {
    market: String,
    quantity: String,
}

/// Whether `request` is the order request with these parts and no freeze.
pub open spec fn is_request(
    request: OrderRequest,
    market: Seq<char>,
    quantity: Seq<char>,
    side: Side,
    typ: Type,
    time_in_force: TimeInForceType,
    price: Option<Seq<char>>,
) -> bool {
    &&& request.market@ == market
    &&& request.quantity@ == quantity
    &&& request.side == side
    &&& request.execution.typ == typ
    &&& request.execution.time_in_force.typ == time_in_force
    &&& match (request.execution.price, price) {
        (None, None) => true,
        (Some(p), Some(q)) => p@ == q,
        _ => false,
    }
    &&& request.execution.freeze is None
}

impl CreateOrder {
    pub closed spec fn market_name(&self) -> Seq<char> {
        self.0@
    }

    pub fn new(market: &str) -> (order: Self)
        ensures
            order.market_name() == market@,
    {
        CreateOrder(market.to_owned())
    }

    pub fn sell(self, quantity: &str) -> (order: CreateSellOrder)
        ensures
            order.market_name() == self.market_name(),
            order.quantity() == quantity@,
    {
        CreateSellOrder { market: self.0, quantity: quantity.to_owned() }
    }

    pub fn buy(self, quantity: &str) -> (order: CreateBuyOrder)
        ensures
            order.market_name() == self.market_name(),
            order.quantity() == quantity@,
    {
        CreateBuyOrder { market: self.0, quantity: quantity.to_owned() }
    }
}

impl CreateSellOrder {
    pub closed spec fn market_name(&self) -> Seq<char> {
        self.market@
    }

    pub closed spec fn quantity(&self) -> Seq<char> {
        self.quantity@
    }

    /// A market sell order, immediate-or-cancel, without a price.
    pub fn market(self) -> (request: OrderRequest)
        ensures
            is_request(
                request,
                self.market_name(),
                self.quantity(),
                Side::Sell,
                Type::Market,
                TimeInForceType::ImmediateOrCancel,
                None,
            ),
    {
        OrderRequest {
            market: self.market,
            quantity: self.quantity,
            side: Side::Sell,
            execution: Execution {
                typ: Type::Market,
                time_in_force: TimeInForce { typ: TimeInForceType::ImmediateOrCancel },
                price: None,
                freeze: None,
            },
        }
    }

    /// A limit sell order at `price`, good until canceled.
    pub fn limit(self, price: &str) -> (request: OrderRequest)
        ensures
            is_request(
                request,
                self.market_name(),
                self.quantity(),
                Side::Sell,
                Type::Limit,
                TimeInForceType::GoodTilCanceled,
                Some(price@),
            ),
    {
        OrderRequest {
            market: self.market,
            quantity: self.quantity,
            side: Side::Sell,
            execution: Execution {
                typ: Type::Limit,
                time_in_force: TimeInForce { typ: TimeInForceType::GoodTilCanceled },
                price: Some(price.to_owned()),
                freeze: None,
            },
        }
    }
}

/// An order request that cannot be built.
#[derive(Clone, Copy, Debug, PartialEq, Eq, Structural)]
pub enum UnsupportedOrder {
    /// A market buy, whose freeze amount is not defined.
    MarketBuy,
}

impl CreateBuyOrder {
    pub closed spec fn market_name(&self) -> Seq<char> {
        self.market@
    }

    pub closed spec fn quantity(&self) -> Seq<char> {
        self.quantity@
    }

    /// A market buy order. A market buy has to freeze an amount of the
    /// quote asset, and what that amount should be is not defined, so such
    /// a request is never built. The call does not stop the program over
    /// this: it always returns the typed error `UnsupportedOrder::MarketBuy`,
    /// for every input, and never a request.
    pub fn market(self) -> (request: Result<OrderRequest, UnsupportedOrder>)
        ensures
            request == Err::<OrderRequest, UnsupportedOrder>(UnsupportedOrder::MarketBuy),
    {
        Err(UnsupportedOrder::MarketBuy)
    }

    /// A limit buy order at `price`, good until canceled.
    pub fn limit(self, price: &str) -> (request: OrderRequest)
        ensures
            is_request(
                request,
                self.market_name(),
                self.quantity(),
                Side::Buy,
                Type::Limit,
                TimeInForceType::GoodTilCanceled,
                Some(price@),
            ),
    {
        OrderRequest {
            market: self.market,
            quantity: self.quantity,
            side: Side::Buy,
            execution: Execution {
                typ: Type::Limit,
                time_in_force: TimeInForce { typ: TimeInForceType::GoodTilCanceled },
                price: Some(price.to_owned()),
                freeze: None,
            },
        }
    }
}

impl OrderRequest {
    /// Replaces the time in force, and nothing else.
    pub fn time_in_force(self, time_in_force: TimeInForceType) -> (request: OrderRequest)
        ensures
            request.market == self.market,
            request.quantity == self.quantity,
            request.side == self.side,
            request.execution.typ == self.execution.typ,
            request.execution.price == self.execution.price,
            request.execution.freeze == self.execution.freeze,
            request.execution.time_in_force.typ == time_in_force,
    {
        let mut request = self;
        request.execution.time_in_force.typ = time_in_force;
        request
    }
}

/// When an order was created, opened, closed or rejected.
#[derive(Debug)]
pub struct Events {
    pub created_at: String,
    pub opened_at: Option<String>,
    pub closed_at: Option<String>,
    pub rejected_at: Option<String>,
}

/// A partial or complete execution of an order.
#[derive(Debug)]
pub struct Fill {
    pub quantity: String,
    pub price: String,
    pub fee: String,
    pub created_at: String,
}

/// An order of the account.
#[derive(Debug)]
pub struct Order {
    pub id: String,
    pub market: String,
    pub quantity: String,
    pub side: Side,
    pub execution: Execution,
    pub events: Events,
    pub fills: Vec<Fill>,
}

/// An order of the account as the per-market endpoint lists it, without
/// its market.
#[derive(Debug)]
pub struct MarketOrder {
    pub id: String,
    pub quantity: String,
    pub side: Side,
    pub execution: Execution,
    pub events: Events,
    pub fills: Vec<Fill>,
}

/// Whether `order` is `market_order` placed on `market`.
pub open spec fn is_order_of(order: Order, market_order: MarketOrder, market: Seq<char>) -> bool {
    &&& order.id == market_order.id
    &&& order.market@ == market
    &&& order.quantity == market_order.quantity
    &&& order.side == market_order.side
    &&& order.execution == market_order.execution
    &&& order.events == market_order.events
    &&& order.fills == market_order.fills
}

impl MarketOrder {
    /// The order with its market filled in.
    pub fn into_order(self, market: &str) -> (order: Order)
        ensures
            is_order_of(order, self, market@),
    {
        Order {
            id: self.id,
            market: market.to_owned(),
            quantity: self.quantity,
            side: self.side,
            execution: self.execution,
            events: self.events,
            fills: self.fills,
        }
    }
}

/// Fills in the market of every order of a per-market listing, keeping
/// their order.
pub fn into_orders(orders: Vec<MarketOrder>, market: &str) -> (result: Vec<Order>)
    ensures
        result@.len() == orders@.len(),
        forall|i: int| 0 <= i < orders@.len() ==> is_order_of(#[trigger] result@[i], orders@[i], market@),
{
    let mut rest = orders;
    let mut reversed: Vec<MarketOrder> = Vec::new();
    while rest.len() > 0
        invariant
            reversed@.len() + rest@.len() == orders@.len(),
            forall|i: int| 0 <= i < rest@.len() ==> #[trigger] rest@[i] == orders@[i],
            forall|i: int|
                0 <= i < reversed@.len() ==> #[trigger] reversed@[i] == orders@[orders@.len() - 1 - i],
        decreases rest@.len(),
    {
        let o = rest.pop().unwrap();
        reversed.push(o);
    }
    let mut result: Vec<Order> = Vec::new();
    while reversed.len() > 0
        invariant
            reversed@.len() + result@.len() == orders@.len(),
            forall|i: int|
                0 <= i < reversed@.len() ==> #[trigger] reversed@[i] == orders@[orders@.len() - 1 - i],
            forall|i: int| 0 <= i < result@.len() ==> is_order_of(#[trigger] result@[i], orders@[i], market@),
        decreases reversed@.len(),
    {
        let o = reversed.pop().unwrap();
        result.push(o.into_order(market));
    }
    result
}

/// The balance of an asset.
#[derive(Debug)]
pub struct Balance {
    pub available: String,
    pub total: String,
}

/// An amount of an asset that is frozen.
#[derive(Debug)]
pub struct AssetFreeze {
    pub id: String,
    pub amount: String,
}

/// An asset of the account.
#[derive(Debug)]
pub struct Asset {
    pub id: String,
    pub balance: Balance,
    pub freezes: Vec<AssetFreeze>,
}

/// The path of the account's orders: where orders are created and listed.
pub open spec fn orders_path_spec(account_id: Seq<char>) -> Seq<char> {
    "/accounts/"@ + account_id + "/orders"@
}

pub fn orders_path(account_id: &str) -> (path: String)
    ensures
        path@ == orders_path_spec(account_id@),
{
    concat3("/accounts/", account_id, "/orders")
}

/// The path of the account's orders on one market.
pub open spec fn market_orders_of_account_path_spec(account_id: Seq<char>, market: Seq<char>) -> Seq<char> {
    "/accounts/"@ + account_id + "/markets/"@ + market + "/orders"@
}

pub fn market_orders_of_account_path(account_id: &str, market: &str) -> (path: String)
    ensures
        path@ == market_orders_of_account_path_spec(account_id@, market@),
{
    concat5("/accounts/", account_id, "/markets/", market, "/orders")
}

/// The path of one asset of the account.
pub open spec fn asset_path_spec(account_id: Seq<char>, asset_id: Seq<char>) -> Seq<char> {
    "/accounts/"@ + account_id + "/assets/"@ + asset_id
}

pub fn asset_path(account_id: &str, asset_id: &str) -> (path: String)
    ensures
        path@ == asset_path_spec(account_id@, asset_id@),
{
    concat4("/accounts/", account_id, "/assets/", asset_id)
}

/// The path of one order on a market: where it is canceled.
pub open spec fn cancel_order_path_spec(market: Seq<char>, order_id: Seq<char>) -> Seq<char> {
    "/markets/"@ + market + "/orders/"@ + order_id
}

pub fn cancel_order_path(market: &str, order_id: &str) -> (path: String)
    ensures
        path@ == cancel_order_path_spec(market@, order_id@),
{
    concat4("/markets/", market, "/orders/", order_id)
}

} // verus!
