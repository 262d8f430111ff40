//! Request building, signing and response handling for the NBX exchange API,
//! together with the decision logic of the NBX selling terminal.
//!
//! The HTTP and WebSocket exchanges themselves, and everything that works on
//! floating-point prices, are left to the caller; this library computes what
//! is sent, reads what comes back, and decides what to do next.

pub mod book;
pub mod bot;
pub mod client;
pub mod clock;
pub mod config;
pub mod error;
pub mod history;
pub mod text;
pub mod websocket;

pub use client::accounts::{self, CreateOrder, Side};
pub use client::markets::{self, Order};
pub use config::Config;
pub use websocket::WebSocketEvent;
