//! Public market data: trades, the order book and market descriptions, and
//! the paths and query of the market endpoints.

use vstd::prelude::*;

use crate::client::accounts::Side;
use crate::text::concat3;

verus! {

/// One side of a trade.
#[derive(Debug)]
pub struct TradeOrder {
    pub id: String,
    pub side: Side,
}

/// A trade on a market.
#[derive(Debug)]
pub struct Trade {
    pub maker_order: TradeOrder,
    pub taker_order: TradeOrder,
    pub price: String,
    pub quantity: String,
    pub created_at: String,
}

/// The description of a market.
#[derive(Debug)]
pub struct Market {
    pub name: String,
    pub id: String,
    pub disabled: bool,
    pub base_asset: String,
    pub status: String,
    pub cancel_only: bool,
    pub limit_only: bool,
    pub quote_asset: String,
    pub status_description: Option<String>,
    pub quote_increment: String,
    pub base_size_minimum: String,
    pub base_increment: String,
}

/// An order on the book of a market.
#[derive(Clone, Debug)]
pub struct Order {
    pub id: String,
    pub side: Side,
    pub price: String,
    pub quantity: String,
    /// Present on the orders that the event stream reports.
    pub timestamp: Option<String>,
}

/// The path of the trades of a market.
pub open spec fn trades_path_spec(market: Seq<char>) -> Seq<char> {
    "/markets/"@ + market + "/trades"@
}

pub fn trades_path(market: &str) -> (path: String)
    ensures
        path@ == trades_path_spec(market@),
{
    concat3("/markets/", market, "/trades")
}

/// The path of the order book of a market.
pub open spec fn book_path_spec(market: Seq<char>) -> Seq<char> {
    "/markets/"@ + market + "/orders"@
}

pub fn book_path(market: &str) -> (path: String)
    ensures
        path@ == book_path_spec(market@),
{
    concat3("/markets/", market, "/orders")
}

/// The path of the description of a market.
pub open spec fn market_path_spec(market: Seq<char>) -> Seq<char> {
    "/markets/"@ + market
}

pub fn market_path(market: &str) -> (path: String)
    ensures
        path@ == market_path_spec(market@),
{
    let mut path = "/markets/".to_owned();
    path.append(market);
    path
}

/// The query of an order book request: a `side` parameter when only one
/// side of the book is asked for, none otherwise.
pub fn book_query(side: Option<Side>) -> (query: Vec<(String, String)>)
    ensures
        match side {
            None => query@.len() == 0,
            Some(s) => query@.len() == 1 && query@[0].0@ == "side"@ && query@[0].1@ == s.wire_name(),
        },
{
    let mut query: Vec<(String, String)> = Vec::new();
    match side {
        Some(s) => {
            query.push(("side".to_owned(), s.as_str().to_owned()));
        },
        None => {},
    }
    query
}

} // verus!
