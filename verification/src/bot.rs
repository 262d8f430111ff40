//! The decisions of the selling terminal that do not involve prices: when
//! the next order is due, what the sweep over open orders concluded, what a
//! key press asks for, and how the order book and the fills are grouped
//! for display.

use chrono::{TimeZone, Utc};
use rand::rngs::ThreadRng;
use rand::Rng;
use vstd::prelude::*;

use crate::client::accounts;
use crate::client::accounts::{Side, Type};
use crate::client::markets::Order;

verus! {

// ---------------------------------------------------------------------------
// Delay before the next order.
// ---------------------------------------------------------------------------

#[verifier::external_type_specification]
#[verifier::external_body]
pub struct ExThreadRng(ThreadRng);

/// Calls `rand::thread_rng`. Nothing is claimed of the generator.
#[verifier::external_body]
fn thread_rng() -> ThreadRng {
    rand::thread_rng()
}

/// Calls `Rng::gen_range(low..high)`, which panics on an empty range (ruled
/// out by `requires`) and otherwise gives a value of the range; which one
/// is left to chance.
#[verifier::external_body]
fn gen_range(rng: &mut ThreadRng, low: u64, high: u64) -> (value: u64)
    requires
        low < high,
    ensures
        low <= value < high,
{
    rng.gen_range(low..high)
}

/// Calls `Rng::gen::<bool>()`. Which value comes back is left to chance.
#[verifier::external_body]
fn gen_bool(rng: &mut ThreadRng) -> bool {
    rng.gen::<bool>()
}

/// The base delay, in seconds, between two orders.
pub const BASE_ORDER_DELAY_SECS: u64 = 1800;

/// The delay is moved by less than this many seconds, either way.
pub const ORDER_DELAY_VARIANCE_SECS: u64 = 300;

/// The delay before the next order: the base delay moved by `variance`
/// seconds, later or earlier.
pub open spec fn spec_order_delay(variance: nat, later: bool) -> int {
    if later {
        BASE_ORDER_DELAY_SECS + variance
    } else {
        BASE_ORDER_DELAY_SECS - variance
    }
}

pub fn order_delay_secs(variance: u64, later: bool) -> (delay: u64)
    requires
        variance < ORDER_DELAY_VARIANCE_SECS,
    ensures
        delay == spec_order_delay(variance as nat, later),
{
    if later {
        BASE_ORDER_DELAY_SECS + variance
    } else {
        BASE_ORDER_DELAY_SECS - variance
    }
}

/// Draws the delay before the next order: a variance below the bound and a
/// direction, both at random.
pub fn next_order_delay_secs() -> (delay: u64)
    ensures
        exists|variance: nat, later: bool|
            variance < ORDER_DELAY_VARIANCE_SECS && delay == #[trigger] spec_order_delay(variance, later),
        BASE_ORDER_DELAY_SECS - ORDER_DELAY_VARIANCE_SECS < delay < BASE_ORDER_DELAY_SECS
            + ORDER_DELAY_VARIANCE_SECS,
{
    let mut rng = thread_rng();
    let variance = gen_range(&mut rng, 0, ORDER_DELAY_VARIANCE_SECS);
    let later = gen_bool(&mut rng);
    let delay = order_delay_secs(variance, later);
    assert(delay == spec_order_delay(variance as nat, later));
    delay
}

// ---------------------------------------------------------------------------
// Sweep over the open orders before a new order.
// ---------------------------------------------------------------------------

/// What has been seen while canceling the open orders one by one.
pub struct CancelSweep {
    had_unfilled: bool,
    failed: bool,
}

impl CancelSweep {
    /// Whether some swept order had no fill at all.
    pub closed spec fn saw_unfilled(&self) -> bool {
        self.had_unfilled
    }

    /// Whether some cancel request failed.
    pub closed spec fn saw_failure(&self) -> bool {
        self.failed
    }

    /// A sweep that has seen no order yet.
    pub fn new() -> (sweep: CancelSweep)
        ensures
            !sweep.saw_unfilled(),
            !sweep.saw_failure(),
    {
        CancelSweep { had_unfilled: false, failed: false }
    }

    /// Records one order: whether it had no fills, and whether canceling it
    /// failed.
    pub fn record(&mut self, no_fills: bool, cancel_failed: bool)
        ensures
            final(self).saw_unfilled() == (old(self).saw_unfilled() || no_fills),
            final(self).saw_failure() == (old(self).saw_failure() || cancel_failed),
    {
        self.had_unfilled = no_fills || self.had_unfilled;
        self.failed = cancel_failed || self.failed;
    }

    /// Whether the next order is due at once: every cancel succeeded and
    /// some order went unfilled, so it is tried again.
    pub fn retry_now(&self) -> (retry: bool)
        ensures
            retry == (!self.saw_failure() && self.saw_unfilled()),
    {
        !self.failed && self.had_unfilled
    }

    /// Whether the account can be taken to have no open orders any more:
    /// every cancel succeeded.
    pub fn all_canceled(&self) -> (done: bool)
        ensures
            done == !self.saw_failure(),
    {
        !self.failed
    }
}

// ---------------------------------------------------------------------------
// When the next order is due.
// ---------------------------------------------------------------------------

/// The first order is due this many milliseconds after the terminal starts.
pub const FIRST_ORDER_DELAY_MS: u64 = 300_000;

/// After an order could not be created, the next is due this many
/// milliseconds later.
pub const ERROR_DELAY_MS: u64 = 300_000;

/// Milliseconds in a second.
pub const MS_PER_SEC: u64 = 1000;

/// When the next order is due, in milliseconds on a monotonic clock.
pub struct SellSchedule {
    next_due_ms: u64,
}

impl SellSchedule {
    /// The time at which the next order is due.
    pub closed spec fn next_due(&self) -> nat {
        self.next_due_ms as nat
    }

    /// The schedule of a terminal started at `now_ms`.
    pub fn new(now_ms: u64) -> (schedule: SellSchedule)
        requires
            now_ms + FIRST_ORDER_DELAY_MS <= u64::MAX,
        ensures
            schedule.next_due() == now_ms + FIRST_ORDER_DELAY_MS,
    {
        SellSchedule { next_due_ms: now_ms + FIRST_ORDER_DELAY_MS }
    }

    /// Makes the next order due at `now_ms` (the key that forces an order).
    pub fn force(&mut self, now_ms: u64)
        ensures
            final(self).next_due() == now_ms,
    {
        self.next_due_ms = now_ms;
    }

    /// Applies the conclusion of a sweep over the open orders at `now_ms`:
    /// when it asks for a retry, the next order is due now.
    pub fn after_sweep(&mut self, sweep: &CancelSweep, now_ms: u64)
        ensures
            final(self).next_due() == if !sweep.saw_failure() && sweep.saw_unfilled() {
                now_ms as nat
            } else {
                old(self).next_due()
            },
    {
        if sweep.retry_now() {
            self.next_due_ms = now_ms;
        }
    }

    /// Whether an order is due at `now_ms`: its time has come, or the price
    /// has risen enough above the last fill (`price_trigger`).
    pub fn is_due(&self, now_ms: u64, price_trigger: bool) -> (due: bool)
        ensures
            due == (now_ms >= self.next_due() || price_trigger),
    {
        now_ms >= self.next_due_ms || price_trigger
    }

    /// Records that an order was created at `now_ms`: the next one is due
    /// after a delay drawn by `next_order_delay_secs`, which is returned.
    pub fn order_placed(&mut self, now_ms: u64) -> (delay_secs: u64)
        requires
            now_ms + (BASE_ORDER_DELAY_SECS + ORDER_DELAY_VARIANCE_SECS) * MS_PER_SEC <= u64::MAX,
        ensures
            exists|variance: nat, later: bool|
                variance < ORDER_DELAY_VARIANCE_SECS && delay_secs == #[trigger] spec_order_delay(variance, later),
            final(self).next_due() == now_ms + delay_secs * MS_PER_SEC,
    {
        let delay_secs = next_order_delay_secs();
        assert(delay_secs * MS_PER_SEC <= (BASE_ORDER_DELAY_SECS + ORDER_DELAY_VARIANCE_SECS) * MS_PER_SEC)
            by (nonlinear_arith)
            requires
                delay_secs < BASE_ORDER_DELAY_SECS + ORDER_DELAY_VARIANCE_SECS,
        ;
        self.next_due_ms = now_ms + delay_secs * MS_PER_SEC;
        delay_secs
    }

    /// Records that creating an order failed at `now_ms`: the next try is
    /// due after the error delay.
    pub fn order_failed(&mut self, now_ms: u64)
        requires
            now_ms + ERROR_DELAY_MS <= u64::MAX,
        ensures
            final(self).next_due() == now_ms + ERROR_DELAY_MS,
    {
        self.next_due_ms = now_ms + ERROR_DELAY_MS;
    }
}

/// Shift+B, with or without Control and whatever the Coinbase flag, asks
/// for an order now and does nothing else: it neither quits, nor moves the
/// minimum sell price, nor flips the flag.
pub proof fn law_shift_b_forces_order(control: bool, ignoring: bool)
    ensures
        ({
            let effect = spec_key_effect(spec_key_action(Key::Char('B'), true, control), ignoring);
            &&& effect.force_order
            &&& !effect.quit
            &&& effect.limit_delta == 0
            &&& effect.ignoring_coinbase == ignoring
        }),
{
}

// ---------------------------------------------------------------------------
// Supervision of the market feed.
// ---------------------------------------------------------------------------

/// The feed is read for at most this many nanoseconds (an hour) before it
/// is started again from a fresh copy of the book.
pub const FEED_RESET_NANOS: u128 = 3_600_000_000_000;

/// After a failure the supervisor waits this many seconds before it goes on.
pub const FEED_RETRY_PAUSE_SECS: u64 = 5;

/// Whether a feed that has been read for `elapsed_nanos` is to be started
/// again before its next event is read: it is once more than an hour has
/// passed.
pub fn feed_expired(elapsed_nanos: u128) -> (expired: bool)
    ensures
        expired == (elapsed_nanos > FEED_RESET_NANOS),
{
    elapsed_nanos > FEED_RESET_NANOS
}

/// What happened in the market feed: loading the book, connecting to the
/// event stream, or reading it.
#[derive(Clone, Copy, Debug, PartialEq, Eq, Structural)]
pub enum FeedOutcome {
    /// The first page of the book could not be fetched.
    BookFailed,
    /// A later page of the book could not be fetched.
    PageFailed,
    /// The event stream could not be opened.
    ConnectFailed,
    /// The stream gave an event.
    Event,
    /// The stream ended.
    StreamEnded,
    /// Reading the stream failed.
    StreamFailed,
}

/// Where the feed goes on after an outcome.
#[derive(Clone, Copy, Debug, PartialEq, Eq, Structural)]
pub enum FeedPhase {
    /// Start again: clear the book and load it anew.
    Restart,
    /// Open the event stream with the book loaded so far.
    Connect,
    /// Read the next event.
    ReadNext,
}

/// What the supervisor does after an outcome: whether it shows the error,
/// whether it first waits `FEED_RETRY_PAUSE_SECS`, and where it goes on.
#[derive(Clone, Copy, Debug, PartialEq, Eq, Structural)]
pub struct FeedAction {
    pub report_error: bool,
    pub pause: bool,
    pub next: FeedPhase,
}

/// The supervisor's answer to each outcome: a failure to load the book
/// waits and starts again (a failed later page waits and connects with the
/// pages loaded); a failure of the stream is shown, waits and starts again;
/// an ended stream starts again at once; an event is applied and the next
/// one read.
pub open spec fn spec_feed_action(outcome: FeedOutcome) -> FeedAction {
    match outcome {
        FeedOutcome::BookFailed => FeedAction { report_error: false, pause: true, next: FeedPhase::Restart },
        FeedOutcome::PageFailed => FeedAction { report_error: false, pause: true, next: FeedPhase::Connect },
        FeedOutcome::ConnectFailed => FeedAction { report_error: true, pause: true, next: FeedPhase::Restart },
        FeedOutcome::Event => FeedAction { report_error: false, pause: false, next: FeedPhase::ReadNext },
        FeedOutcome::StreamEnded => FeedAction { report_error: false, pause: false, next: FeedPhase::Restart },
        FeedOutcome::StreamFailed => FeedAction { report_error: true, pause: true, next: FeedPhase::Restart },
    }
}

pub fn feed_action(outcome: FeedOutcome) -> (action: FeedAction)
    ensures
        action == spec_feed_action(outcome),
{
    match outcome {
        FeedOutcome::BookFailed => FeedAction { report_error: false, pause: true, next: FeedPhase::Restart },
        FeedOutcome::PageFailed => FeedAction { report_error: false, pause: true, next: FeedPhase::Connect },
        FeedOutcome::ConnectFailed => FeedAction { report_error: true, pause: true, next: FeedPhase::Restart },
        FeedOutcome::Event => FeedAction { report_error: false, pause: false, next: FeedPhase::ReadNext },
        FeedOutcome::StreamEnded => FeedAction { report_error: false, pause: false, next: FeedPhase::Restart },
        FeedOutcome::StreamFailed => FeedAction { report_error: true, pause: true, next: FeedPhase::Restart },
    }
}

/// Every failure of the feed is followed by a pause before anything is
/// tried again, and only an event lets the stream be read on.
pub proof fn law_feed_failures_pause(outcome: FeedOutcome)
    ensures
        (outcome == FeedOutcome::BookFailed || outcome == FeedOutcome::PageFailed
            || outcome == FeedOutcome::ConnectFailed || outcome == FeedOutcome::StreamFailed)
            ==> spec_feed_action(outcome).pause,
        (spec_feed_action(outcome).next == FeedPhase::ReadNext) <==> outcome == FeedOutcome::Event,
{
}

// ---------------------------------------------------------------------------
// Keys.
// ---------------------------------------------------------------------------

/// A key of the terminal.
#[derive(Clone, Copy, Debug, PartialEq, Eq, Structural)]
pub enum Key {
    Esc,
    Char(char),
    PageUp,
    PageDown,
    Other,
}

/// What a key press asks for.
#[derive(Clone, Copy, Debug, PartialEq, Eq, Structural)]
pub enum KeyAction {
    Quit,
    /// Make the next order due now.
    ForceOrder,
    /// Move the minimum sell price by this amount.
    AdjustLimit(i32),
    /// Start or stop ignoring the Coinbase price.
    ToggleIgnoreCoinbase,
    Nothing,
}

/// What a key press asks for: Esc, `q` and Ctrl+C quit; Shift+B makes the
/// next order due now; Page Up and Page Down move the minimum sell price up
/// and down by 10, or by 100 with Shift; `i` toggles ignoring the Coinbase
/// price.
pub open spec fn spec_key_action(key: Key, shift: bool, control: bool) -> KeyAction {
    match key {
        Key::Esc => KeyAction::Quit,
        Key::Char(c) => if c == 'q' {
            KeyAction::Quit
        } else if c == 'c' && control {
            KeyAction::Quit
        } else if c == 'B' && shift {
            KeyAction::ForceOrder
        } else if c == 'i' {
            KeyAction::ToggleIgnoreCoinbase
        } else {
            KeyAction::Nothing
        },
        Key::PageUp => KeyAction::AdjustLimit(if shift { 100i32 } else { 10i32 }),
        Key::PageDown => KeyAction::AdjustLimit(if shift { -100i32 } else { -10i32 }),
        Key::Other => KeyAction::Nothing,
    }
}

pub fn key_action(key: Key, shift: bool, control: bool) -> (action: KeyAction)
    ensures
        action == spec_key_action(key, shift, control),
{
    match key {
        Key::Esc => KeyAction::Quit,
        Key::Char(c) => {
            if c == 'q' {
                KeyAction::Quit
            } else if c == 'c' && control {
                KeyAction::Quit
            } else if c == 'B' && shift {
                KeyAction::ForceOrder
            } else if c == 'i' {
                KeyAction::ToggleIgnoreCoinbase
            } else {
                KeyAction::Nothing
            }
        },
        Key::PageUp => KeyAction::AdjustLimit(if shift { 100 } else { 10 }),
        Key::PageDown => KeyAction::AdjustLimit(if shift { -100 } else { -10 }),
        Key::Other => KeyAction::Nothing,
    }
}

/// Page Down undoes Page Up: with the same modifiers, the two keys move the
/// minimum sell price by opposite amounts.
pub proof fn law_page_keys_opposite(shift: bool, control: bool)
    ensures
        spec_key_action(Key::PageUp, shift, control) matches KeyAction::AdjustLimit(up)
            && spec_key_action(Key::PageDown, shift, control) matches KeyAction::AdjustLimit(down)
            && up + down == 0,
{
}

/// What a key action does to the terminal's controls.
#[derive(Clone, Copy, Debug, PartialEq, Eq, Structural)]
pub struct KeyEffect {
    /// The terminal stops.
    pub quit: bool,
    /// The next order is made due now.
    pub force_order: bool,
    /// The amount the minimum sell price moves by.
    pub limit_delta: i32,
    /// Whether the Coinbase price is ignored afterwards.
    pub ignoring_coinbase: bool,
}

/// The effect of `action` when the Coinbase price is ignored exactly when
/// `ignoring` holds: only the toggle flips that flag, only the limit
/// adjustments move the minimum sell price.
pub open spec fn spec_key_effect(action: KeyAction, ignoring: bool) -> KeyEffect {
    KeyEffect {
        quit: action == KeyAction::Quit,
        force_order: action == KeyAction::ForceOrder,
        limit_delta: match action {
            KeyAction::AdjustLimit(delta) => delta,
            _ => 0i32,
        },
        ignoring_coinbase: if action == KeyAction::ToggleIgnoreCoinbase {
            !ignoring
        } else {
            ignoring
        },
    }
}

pub fn key_effect(action: KeyAction, ignoring: bool) -> (effect: KeyEffect)
    ensures
        effect == spec_key_effect(action, ignoring),
{
    KeyEffect {
        quit: matches!(action, KeyAction::Quit),
        force_order: matches!(action, KeyAction::ForceOrder),
        limit_delta: match action {
            KeyAction::AdjustLimit(delta) => delta,
            _ => 0,
        },
        ignoring_coinbase: if matches!(action, KeyAction::ToggleIgnoreCoinbase) {
            !ignoring
        } else {
            ignoring
        },
    }
}

/// The `i` key, with any modifiers, flips whether the Coinbase price is
/// ignored and does nothing else; pressing it twice restores the flag.
pub proof fn law_i_toggles_ignoring(ignoring: bool, shift: bool, control: bool)
    ensures
        ({
            let once = spec_key_effect(spec_key_action(Key::Char('i'), shift, control), ignoring);
            let twice = spec_key_effect(
                spec_key_action(Key::Char('i'), shift, control),
                once.ignoring_coinbase,
            );
            &&& once.ignoring_coinbase == !ignoring
            &&& !once.quit && !once.force_order && once.limit_delta == 0
            &&& twice.ignoring_coinbase == ignoring
        }),
{
}

/// Only Esc, `q` and Ctrl+C stop the terminal: whatever the modifiers and
/// the Coinbase flag, a key press quits exactly when it is one of these.
pub proof fn law_only_quit_keys_quit(key: Key, shift: bool, control: bool, ignoring: bool)
    ensures
        spec_key_effect(spec_key_action(key, shift, control), ignoring).quit <==> (key == Key::Esc
            || key == Key::Char('q') || (key == Key::Char('c') && control)),
{
}

/// An action quits only when it is `Quit`, and `Quit` does nothing else.
pub proof fn law_quit_only_on_quit(action: KeyAction, ignoring: bool)
    ensures
        spec_key_effect(action, ignoring).quit ==> action == KeyAction::Quit,
        action == KeyAction::Quit ==> spec_key_effect(action, ignoring).quit,
        action == KeyAction::Quit ==> !spec_key_effect(action, ignoring).force_order
            && spec_key_effect(action, ignoring).limit_delta == 0
            && spec_key_effect(action, ignoring).ignoring_coinbase == ignoring,
{
}

/// A key without a binding (any character but `q`, `c`, `B` and `i`, or a
/// key that is none of Esc, Page Up and Page Down) leaves everything as it
/// was: it neither quits, nor orders, nor moves the minimum sell price, nor
/// flips the Coinbase flag.
pub proof fn law_unbound_keys_do_nothing(key: Key, shift: bool, control: bool, ignoring: bool)
    requires
        key == Key::Other || (key matches Key::Char(c) && c != 'q' && c != 'c' && c != 'B' && c != 'i'),
    ensures
        ({
            let effect = spec_key_effect(spec_key_action(key, shift, control), ignoring);
            &&& !effect.quit
            &&& !effect.force_order
            &&& effect.limit_delta == 0
            &&& effect.ignoring_coinbase == ignoring
        }),
{
}

/// Only Page Up and Page Down move the minimum sell price, by 10 up or
/// down, or by 100 with Shift; every other key leaves it.
pub proof fn law_only_page_keys_move_limit(key: Key, shift: bool, control: bool, ignoring: bool)
    ensures
        ({
            let delta = spec_key_effect(spec_key_action(key, shift, control), ignoring).limit_delta;
            &&& key == Key::PageUp ==> delta == (if shift { 100int } else { 10int })
            &&& key == Key::PageDown ==> delta == (if shift { -100int } else { -10int })
            &&& (key != Key::PageUp && key != Key::PageDown) ==> delta == 0
        }),
{
}

/// Only Shift+B orders at once, and only `i` flips the Coinbase flag.
pub proof fn law_order_and_toggle_keys(key: Key, shift: bool, control: bool, ignoring: bool)
    ensures
        ({
            let effect = spec_key_effect(spec_key_action(key, shift, control), ignoring);
            &&& effect.force_order <==> (key == Key::Char('B') && shift)
            &&& (effect.ignoring_coinbase != ignoring) <==> key == Key::Char('i')
        }),
{
}

// ---------------------------------------------------------------------------
// Display groupings.
// ---------------------------------------------------------------------------

/// The column label of a fill's order type: `M` for a market order,
/// `L(price)` for a limit order.
pub open spec fn spec_fill_type_label(typ: Type, price: Seq<char>) -> Seq<char> {
    match typ {
        Type::Market => "M"@,
        Type::Limit => "L("@ + price + ")"@,
    }
}

pub fn fill_type_label(typ: Type, price: &str) -> (label: String)
    ensures
        label@ == spec_fill_type_label(typ, price@),
{
    match typ {
        Type::Market => "M".to_owned(),
        Type::Limit => crate::text::concat3("L(", price, ")"),
    }
}

/// The sell orders of a book listing, in the listing's order, and its buy
/// orders in the reverse order.
pub fn book_sides(orders: &Vec<Order>) -> (sides: (Vec<&Order>, Vec<&Order>))
    ensures
        sides.0@.map_values(|o: &Order| *o) == orders@.filter(|o: Order| o.side == Side::Sell),
        sides.1@.map_values(|o: &Order| *o) == orders@.reverse().filter(|o: Order| o.side == Side::Buy),
{
    let n = orders.len();
    let mut sells: Vec<&Order> = Vec::new();
    let mut i: usize = 0;
    while i < n
        invariant
            i <= n,
            n == orders@.len(),
            sells@.map_values(|o: &Order| *o) == orders@.take(i as int).filter(|o: Order| o.side == Side::Sell),
        decreases n - i,
    {
        let o = &orders[i];
        proof {
            assert(orders@.take(i + 1).drop_last() =~= orders@.take(i as int));
            reveal_with_fuel(Seq::<_>::filter, 1);
        }
        if o.side == Side::Sell {
            sells.push(o);
        }
        assert(sells@.map_values(|o: &Order| *o) =~= orders@.take(i + 1).filter(|o: Order| o.side == Side::Sell));
        i = i + 1;
    }
    assert(orders@.take(n as int) =~= orders@);
    let mut buys: Vec<&Order> = Vec::new();
    let mut j: usize = n;
    while j > 0
        invariant
            j <= n,
            n == orders@.len(),
            buys@.map_values(|o: &Order| *o) == orders@.reverse().take(n - j).filter(|o: Order| o.side == Side::Buy),
        decreases j,
    {
        let o = &orders[j - 1];
        proof {
            let r = orders@.reverse();
            assert(r.take(n - j + 1).drop_last() =~= r.take(n - j));
            assert(r.take(n - j + 1).last() == orders@[j - 1]);
            reveal_with_fuel(Seq::<_>::filter, 1);
        }
        if o.side == Side::Buy {
            buys.push(o);
        }
        assert(buys@.map_values(|o: &Order| *o) =~= orders@.reverse().take(n - j + 1).filter(|o: Order| o.side == Side::Buy));
        j = j - 1;
    }
    assert(orders@.reverse().take(n as int) =~= orders@.reverse());
    (sells, buys)
}

/// The orders of an account listing that were placed on `market`, in the
/// listing's order.
pub fn orders_in_market<'a>(orders: &'a Vec<accounts::Order>, market: &String) -> (selected: Vec<&'a accounts::Order>)
    ensures
        selected@.map_values(|o: &accounts::Order| *o) == orders@.filter(|o: accounts::Order| o.market@ == market@),
{
    let n = orders.len();
    let mut selected: Vec<&accounts::Order> = Vec::new();
    let mut i: usize = 0;
    while i < n
        invariant
            i <= n,
            n == orders@.len(),
            selected@.map_values(|o: &accounts::Order| *o) == orders@.take(i as int).filter(
                |o: accounts::Order| o.market@ == market@,
            ),
        decreases n - i,
    {
        let o = &orders[i];
        proof {
            assert(orders@.take(i + 1).drop_last() =~= orders@.take(i as int));
            reveal_with_fuel(Seq::<_>::filter, 1);
        }
        if o.market == *market {
            selected.push(o);
        }
        assert(selected@.map_values(|o: &accounts::Order| *o) =~= orders@.take(i + 1).filter(
            |o: accounts::Order| o.market@ == market@,
        ));
        i = i + 1;
    }
    assert(orders@.take(n as int) =~= orders@);
    selected
}

/// Reversing a listing does not change how many of its orders are on a
/// side.
proof fn lemma_filter_len_reverse(s: Seq<Order>, p: spec_fn(Order) -> bool)
    ensures
        s.reverse().filter(p).len() == s.filter(p).len(),
    decreases s.len(),
{
    if s.len() > 0 {
        let t = s.drop_last();
        let x = s.last();
        lemma_filter_len_reverse(t, p);
        assert(s.reverse() =~= seq![x] + t.reverse());
        Seq::filter_distributes_over_add(seq![x], t.reverse(), p);
        assert(t.push(x) =~= s);
        t.lemma_filter_push(x, p);
        reveal_with_fuel(Seq::<_>::filter, 2);
        assert(seq![x].drop_last() =~= Seq::<Order>::empty());
    }
}

/// Every order of a listing is on exactly one of its sides.
proof fn lemma_sides_partition(s: Seq<Order>)
    ensures
        s.filter(|o: Order| o.side == Side::Sell).len() + s.filter(|o: Order| o.side == Side::Buy).len() == s.len(),
    decreases s.len(),
{
    if s.len() > 0 {
        let t = s.drop_last();
        let x = s.last();
        lemma_sides_partition(t);
        assert(t.push(x) =~= s);
        t.lemma_filter_push(x, |o: Order| o.side == Side::Sell);
        t.lemma_filter_push(x, |o: Order| o.side == Side::Buy);
    }
}

/// The two sides of a book listing hold every order of it once: as many
/// orders as the listing has, in total.
pub proof fn law_book_sides_partition(orders: Seq<Order>)
    ensures
        orders.filter(|o: Order| o.side == Side::Sell).len() + orders.reverse().filter(
            |o: Order| o.side == Side::Buy,
        ).len() == orders.len(),
{
    lemma_sides_partition(orders);
    lemma_filter_len_reverse(orders, |o: Order| o.side == Side::Buy);
}

/// Whether the fill history asks for the page after the `pages_read` pages
/// read so far, which gave `collected` fills: the second page is always
/// asked for, and each later one while fewer fills than the limit have
/// been collected.
pub fn keep_paging(pages_read: usize, collected: usize, limit: usize) -> (more: bool)
    ensures
        more == (pages_read <= 1 || collected < limit),
{
    pages_read <= 1 || collected < limit
}

/// The time of a fill: its `created_at` text read as a UTC time, in
/// microseconds since the Unix epoch, when it has the API's format
/// (`%Y-%m-%dT%H:%M:%S%.6f%:z`).
pub uninterp spec fn fill_time_micros(created_at: Seq<char>) -> Option<int>;

/// Calls chrono's `TimeZone::datetime_from_str` on `Utc` with the API's
/// format and converts the time to microseconds with `timestamp_micros`;
/// `None` stands for the parse error. The contract claims the result is
/// what the text reads as.
#[verifier::external_body]
#[allow(deprecated)]
fn parse_fill_time(created_at: &str) -> (micros: Option<i64>)
    ensures
        micros is None <==> fill_time_micros(created_at@) is None,
        micros matches Some(m) ==> fill_time_micros(created_at@) == Some(m as int),
{
    Utc.datetime_from_str(created_at, "%Y-%m-%dT%H:%M:%S%.6f%:z").ok().map(|t| t.timestamp_micros())
}

/// The time of each fill of an order, in the order of the fills.
pub fn fill_times(order: &accounts::Order) -> (times: Vec<Option<i64>>)
    ensures
        times@.len() == order.fills@.len(),
        forall|i: int|
            0 <= i < times@.len() ==> match #[trigger] times@[i] {
                None => fill_time_micros(order.fills@[i].created_at@) is None,
                Some(m) => fill_time_micros(order.fills@[i].created_at@) == Some(m as int),
            },
{
    let n = order.fills.len();
    let mut times: Vec<Option<i64>> = Vec::new();
    let mut i: usize = 0;
    while i < n
        invariant
            i <= n,
            n == order.fills@.len(),
            times@.len() == i,
            forall|j: int|
                0 <= j < i ==> match #[trigger] times@[j] {
                    None => fill_time_micros(order.fills@[j].created_at@) is None,
                    Some(m) => fill_time_micros(order.fills@[j].created_at@) == Some(m as int),
                },
        decreases n - i,
    {
        times.push(parse_fill_time(order.fills[i].created_at.as_str()));
        i = i + 1;
    }
    times
}

} // verus!
