//! The event stream of a market: the events it carries and what the client
//! does with each message the stream delivers.

use vstd::prelude::*;

use crate::client::markets::{Order, TradeOrder};
use crate::text::concat3;

verus! {

/// A trade as the event stream reports it.
pub struct Trade {
    pub price: String,
    pub quantity: String,
    pub timestamp: String,
    pub maker: TradeOrder,
    pub taker: TradeOrder,
}

/// An event of a market's stream.
pub enum WebSocketEvent {
    TradeCreated(Trade),
    OrderOpened(Order),
    OrderClosed(Order),
}

/// The URL of the event stream of a market.
pub open spec fn events_url_spec(market: Seq<char>) -> Seq<char> {
    "wss://api.nbx.com/markets/"@ + market + "/events"@
}

pub fn events_url(market: &str) -> (url: String)
    ensures
        url@ == events_url_spec(market@),
{
    concat3("wss://api.nbx.com/markets/", market, "/events")
}

/// A message as the stream delivers it.
#[derive(Debug)]
pub enum Message {
    Text(String),
    Binary(Vec<u8>),
    Ping(Vec<u8>),
    Pong(Vec<u8>),
    Close,
    Frame,
}

/// What the client does with the next item of the stream.
#[derive(Debug)]
pub enum Step {
    /// Decode the text as an event and hand it to the caller.
    Decode(String),
    /// Answer with a pong that carries these bytes, and read on.
    Pong(Vec<u8>),
    /// Ignore the message and read on.
    Skip,
    /// The stream has ended: there are no more events.
    End,
}

/// Decides what to do with the next item of the stream (`None` when the
/// stream has ended): text messages are events, pings are answered with a
/// pong carrying the same bytes, and every other message is ignored.
pub fn step(message: Option<Message>) -> (next: Step)
    ensures
        match message {
            None => next == Step::End,
            Some(Message::Text(text)) => next == Step::Decode(text),
            Some(Message::Ping(data)) => next == Step::Pong(data),
            Some(_) => next == Step::Skip,
        },
{
    match message {
        None => Step::End,
        Some(Message::Text(text)) => Step::Decode(text),
        Some(Message::Ping(data)) => Step::Pong(data),
        Some(_) => Step::Skip,
    }
}

} // verus!
