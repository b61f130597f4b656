//! The chase: a post-only limit order that follows the best bid (when
//! buying) or the best ask (when selling).
//!
//! The decisions are a state machine. The caller feeds it events — a book
//! ticker, a command from the window, the outcome of a cancel or of an order
//! placement — performs the exchange requests it asks for, and feeds the
//! outcomes back. While a request is awaited no other event is fed in.

use vstd::prelude::*;
use crate::decimal::{parse_units, units_of_text, amount_text, int_text, push_amount, push_int, push_seven_decimals, seven_decimal_text};
use crate::status::{SharedState, SharedView, INITIAL_QTY};
use crate::text::{contains, contains_text};
use crate::json::{json_text_field, text_field};

verus! {

#[derive(Clone, Copy, PartialEq, Eq, Structural, Debug)]
pub enum Side {
    Buy,
    Sell,
}

pub open spec fn side_text(side: Side) -> Seq<char> {
    match side {
        Side::Buy => "BUY"@,
        Side::Sell => "SELL"@,
    }
}

impl Side {
    /// The side as the exchange writes it.
    pub fn as_str(&self) -> (s: &'static str)
        ensures
            s@ == side_text(*self),
    {
        match self {
            Side::Buy => "BUY",
            Side::Sell => "SELL",
        }
    }
}

/// An order to place: side, quantity and limit price (amounts in
/// hundred-millionths).
#[derive(Clone, Copy, PartialEq, Eq, Structural, Debug)]
pub struct OrderIntent {
    pub side: Side,
    pub qty: u64,
    pub price: u64,
}

#[derive(Clone, Copy, PartialEq, Eq, Structural, Debug)]
pub enum ChaseState {
    Idle,
    Transitioning,
    Chasing { side: Side, qty: u64, order_id: i64, target_price: u64 },
}

/// The exchange request being awaited.
#[derive(Clone, Copy, PartialEq, Eq, Structural, Debug)]
pub enum Pending {
    /// The first order of a chase is being placed.
    Initial(OrderIntent),
    /// The resting order is being cancelled before it is replaced.
    Cancelling { cancel_id: i64, intent: OrderIntent },
    /// The replacement order is being placed.
    Replacing(OrderIntent),
}

/// A command from the window.
#[derive(Clone, Copy, PartialEq, Eq, Structural, Debug)]
pub enum Command {
    StartChase(Side),
    CancelChase,
    UpdateQty(u64),
}

/// The exchange requests a command asks for.
#[derive(Clone, Copy, PartialEq, Eq, Structural, Debug)]
pub struct CommandEffect {
    /// Cancel this order in the background and report it in the log when done.
    pub stop_order: Option<i64>,
    /// Cancel this order in the background without reporting it.
    pub drop_order: Option<i64>,
    /// Place this order and feed the reply to `on_order_reply`.
    pub place: Option<OrderIntent>,
}

pub struct Chaser {
    pub state: ChaseState,
    /// The quantity that the next chase trades.
    pub qty: u64,
    pub pending: Option<Pending>,
}

/// A price difference larger than this (0.0000001) counts as a move.
pub const MOVE_TOLERANCE: u64 = 10;

/// The price at which a maker order of `side` rests at the top of the book.
pub open spec fn maker_price(side: Side, bid: u64, ask: u64) -> u64 {
    match side {
        Side::Buy => bid,
        Side::Sell => ask,
    }
}

pub open spec fn price_moved(current: u64, target: u64) -> bool {
    if current >= target {
        current - target > MOVE_TOLERANCE
    } else {
        target - current > MOVE_TOLERANCE
    }
}

/// An error text that says the order is no longer open: the exchange's
/// unknown-order code or the already-filled message.
pub open spec fn order_gone(err: Seq<char>) -> bool {
    contains_text(err, "-2011"@) || contains_text(err, "Order already filled"@)
}

// Log lines and descriptions ------------------------------------------------

pub open spec fn moved_msg(price: u64) -> Seq<char> {
    "[Chase] Precio movido a "@ + seven_decimal_text(price as nat) + ". Re-colocando orden..."@
}

pub open spec fn cancelled_msg(id: i64) -> Seq<char> {
    "[Chase] Orden "@ + int_text(id as int) + " cancelada."@
}

pub open spec fn filled_msg(id: i64) -> Seq<char> {
    "[SUCCESS] ¡Llenada! Persecución completada (ID: "@ + int_text(id as int) + ")."@
}

pub open spec fn cancel_warning_msg(id: i64, err: Seq<char>) -> Seq<char> {
    "[Warning] No se pudo cancelar "@ + int_text(id as int) + ": "@ + err + "."@
}

pub open spec fn replaced_msg(id: i64, price: u64) -> Seq<char> {
    "[Chase] Nueva orden Maker colocada: ID="@ + int_text(id as int) + " Precio="@
        + seven_decimal_text(price as nat)
}

pub open spec fn placed_msg(id: i64, price: u64) -> Seq<char> {
    "[SUCCESS] Orden ID "@ + int_text(id as int) + " colocada @ "@ + seven_decimal_text(
        price as nat,
    ) + "."@
}

pub open spec fn replace_failed_msg(err: Seq<char>) -> Seq<char> {
    "[Error] Fallo al colocar orden: "@ + err
}

pub open spec fn initial_failed_msg(err: Seq<char>) -> Seq<char> {
    "[Error] Error inicial: "@ + err
}

pub open spec fn no_prices_msg() -> Seq<char> {
    "[Error] Esperando precios de WebSocket..."@
}

pub open spec fn placing_msg(side: Side, qty: u64, price: u64) -> Seq<char> {
    "[System] Colocando orden "@ + side_text(side) + " ("@ + amount_text(qty as nat)
        + " contratos) a "@ + seven_decimal_text(price as nat) + "..."@
}

pub open spec fn stopped_msg(id: i64) -> Seq<char> {
    "[System] Orden ID "@ + int_text(id as int) + " cancelada."@
}

pub open spec fn chasing_desc(side: Side, price: u64) -> Seq<char> {
    "Perseg. "@ + side_text(side) + " @ "@ + seven_decimal_text(price as nat)
}

// The state machine ---------------------------------------------------------

impl Chaser {
    /// An awaited request exists only while the chase is between states.
    pub open spec fn wf(self) -> bool {
        self.pending is Some ==> self.state is Transitioning
    }

    pub open spec fn awaiting(self) -> bool {
        self.pending is Some
    }

    pub open spec fn with_state(self, state: ChaseState, pending: Option<Pending>) -> Chaser {
        Chaser { state, pending, ..self }
    }
}

/// A book ticker with best bid `bid` and best ask `ask`: the window shows the
/// prices; a chase whose maker price moved by more than the tolerance asks
/// for its order to be cancelled, to be replaced at the new maker price.
pub open spec fn tick_step(c: Chaser, s: SharedView, bid: u64, ask: u64) -> (Chaser, SharedView, Option<i64>) {
    let s1 = s.with_ticker(bid, ask);
    match c.state {
        ChaseState::Chasing { side, qty, order_id, target_price } => {
            let p = maker_price(side, bid, ask);
            if price_moved(p, target_price) {
                (
                    c.with_state(
                        ChaseState::Transitioning,
                        Some(
                            Pending::Cancelling {
                                cancel_id: order_id,
                                intent: OrderIntent { side, qty, price: p },
                            },
                        ),
                    ),
                    s1.log(moved_msg(p)).describe("Re-posicionando orden..."@),
                    Some(order_id),
                )
            } else {
                (c, s1, None)
            }
        },
        _ => (c, s1, None),
    }
}

/// The outcome of cancelling the order being replaced: `None` when it was
/// cancelled, otherwise the error text. An order that is gone ends the
/// chase; otherwise the replacement is placed.
pub open spec fn cancel_step(c: Chaser, s: SharedView, error: Option<Seq<char>>) -> (Chaser, SharedView, Option<OrderIntent>)
    recommends
        c.pending matches Some(Pending::Cancelling { .. }),
{
    let (cancel_id, intent) = match c.pending {
        Some(Pending::Cancelling { cancel_id, intent }) => (cancel_id, intent),
        _ => arbitrary(),
    };
    match error {
        None => (
            c.with_state(c.state, Some(Pending::Replacing(intent))),
            s.log(cancelled_msg(cancel_id)),
            Some(intent),
        ),
        Some(e) => if order_gone(e) {
            (
                c.with_state(ChaseState::Idle, None),
                s.log(filled_msg(cancel_id)).describe("Idle"@),
                None,
            )
        } else {
            (
                c.with_state(c.state, Some(Pending::Replacing(intent))),
                s.log(cancel_warning_msg(cancel_id, e)),
                Some(intent),
            )
        },
    }
}

/// The placement being awaited and whether it opens a chase.
pub open spec fn placing(c: Chaser) -> (OrderIntent, bool) {
    match c.pending {
        Some(Pending::Initial(intent)) => (intent, true),
        Some(Pending::Replacing(intent)) => (intent, false),
        _ => arbitrary(),
    }
}

/// The outcome of a placement: `Ok` with the order id read from the reply
/// (`None` when the reply holds none), or the error text. A placed order
/// is chased; a reply without an id leaves the chase between states; an
/// error ends it.
pub open spec fn reply_step(c: Chaser, s: SharedView, reply: Result<Option<i64>, Seq<char>>) -> (Chaser, SharedView)
    recommends
        c.pending matches Some(Pending::Initial(_)) || c.pending matches Some(Pending::Replacing(_)),
{
    let (intent, initial) = placing(c);
    match reply {
        Ok(Some(id)) => (
            c.with_state(
                ChaseState::Chasing {
                    side: intent.side,
                    qty: intent.qty,
                    order_id: id,
                    target_price: intent.price,
                },
                None,
            ),
            s.log(
                if initial {
                    placed_msg(id, intent.price)
                } else {
                    replaced_msg(id, intent.price)
                },
            ).describe(chasing_desc(intent.side, intent.price)),
        ),
        Ok(None) => (c.with_state(c.state, None), s),
        Err(e) => (
            c.with_state(ChaseState::Idle, None),
            s.log(
                if initial {
                    initial_failed_msg(e)
                } else {
                    replace_failed_msg(e)
                },
            ).describe("Idle"@),
        ),
    }
}

pub open spec fn no_effect() -> CommandEffect {
    CommandEffect { stop_order: None, drop_order: None, place: None }
}

/// A command from the window.
pub open spec fn command_step(c: Chaser, s: SharedView, cmd: Command) -> (Chaser, SharedView, CommandEffect) {
    match cmd {
        Command::UpdateQty(q) => (Chaser { qty: q, ..c }, s.with_qty(q), no_effect()),
        Command::CancelChase => match c.state {
            ChaseState::Chasing { order_id, .. } => (
                c.with_state(ChaseState::Idle, None),
                s.describe("Idle"@),
                CommandEffect { stop_order: Some(order_id), ..no_effect() },
            ),
            _ => (c, s, no_effect()),
        },
        Command::StartChase(side) => {
            let drop = match c.state {
                ChaseState::Chasing { order_id, .. } => Some(order_id),
                _ => None,
            };
            let price = maker_price(side, s.bid, s.ask);
            if price == 0 {
                (c, s.log(no_prices_msg()), CommandEffect { drop_order: drop, ..no_effect() })
            } else {
                let intent = OrderIntent { side, qty: c.qty, price };
                (
                    c.with_state(ChaseState::Transitioning, Some(Pending::Initial(intent))),
                    s.log(placing_msg(side, c.qty, price)).describe("Enviando orden inicial..."@),
                    CommandEffect { stop_order: None, drop_order: drop, place: Some(intent) },
                )
            }
        },
    }
}


// Executable parts ----------------------------------------------------------

fn maker_price_of(side: Side, bid: u64, ask: u64) -> (p: u64)
    ensures
        p == maker_price(side, bid, ask),
{
    match side {
        Side::Buy => bid,
        Side::Sell => ask,
    }
}

/// Whether a maker price has moved away from the price of the resting order.
pub fn has_moved(current: u64, target: u64) -> (b: bool)
    ensures
        b == price_moved(current, target),
{
    if current >= target {
        current - target > MOVE_TOLERANCE
    } else {
        target - current > MOVE_TOLERANCE
    }
}

/// Whether an error text says that the order is no longer open.
pub fn is_order_gone(err: &str) -> (b: bool)
    ensures
        b == order_gone(err@),
{
    contains(err, "-2011") || contains(err, "Order already filled")
}

fn moved_line(price: u64) -> (m: String)
    ensures
        m@ == moved_msg(price),
{
    let mut m = String::from_str("[Chase] Precio movido a ");
    push_seven_decimals(&mut m, price);
    m.append(". Re-colocando orden...");
    m
}

fn id_line(prefix: &str, id: i64, suffix: &str) -> (m: String)
    ensures
        m@ == prefix@ + int_text(id as int) + suffix@,
{
    let mut m = String::from_str(prefix);
    push_int(&mut m, id);
    m.append(suffix);
    m
}

fn cancel_warning_line(id: i64, err: &str) -> (m: String)
    ensures
        m@ == cancel_warning_msg(id, err@),
{
    let mut m = String::from_str("[Warning] No se pudo cancelar ");
    push_int(&mut m, id);
    m.append(": ");
    m.append(err);
    m.append(".");
    m
}

fn order_line(prefix: &str, id: i64, middle: &str, price: u64, suffix: &str) -> (m: String)
    ensures
        m@ == prefix@ + int_text(id as int) + middle@ + seven_decimal_text(price as nat) + suffix@,
{
    let mut m = String::from_str(prefix);
    push_int(&mut m, id);
    m.append(middle);
    push_seven_decimals(&mut m, price);
    m.append(suffix);
    m
}

fn error_line(prefix: &str, err: &str) -> (m: String)
    ensures
        m@ == prefix@ + err@,
{
    let mut m = String::from_str(prefix);
    m.append(err);
    m
}

fn placing_line(side: Side, qty: u64, price: u64) -> (m: String)
    ensures
        m@ == placing_msg(side, qty, price),
{
    let mut m = String::from_str("[System] Colocando orden ");
    m.append(side.as_str());
    m.append(" (");
    push_amount(&mut m, qty);
    m.append(" contratos) a ");
    push_seven_decimals(&mut m, price);
    m.append("...");
    m
}

fn chasing_line(side: Side, price: u64) -> (m: String)
    ensures
        m@ == chasing_desc(side, price),
{
    let mut m = String::from_str("Perseg. ");
    m.append(side.as_str());
    m.append(" @ ");
    push_seven_decimals(&mut m, price);
    m
}

impl Chaser {
    /// No chase, nothing awaited, and the default quantity of ten thousand.
    pub fn new() -> (c: Chaser)
        ensures
            c.wf(),
            c.state == ChaseState::Idle,
            c.qty == INITIAL_QTY,
            c.pending is None,
    {
        Chaser { state: ChaseState::Idle, qty: INITIAL_QTY, pending: None }
    }

    /// Handles a book ticker (see `tick_step`). Returns the order to cancel
    /// when the chase moves; its outcome goes to `on_cancel_outcome`.
    pub fn on_book_ticker(&mut self, shared: &mut SharedState, bid: u64, ask: u64) -> (cancel: Option<i64>)
        requires
            old(self).wf(),
            !old(self).awaiting(),
            old(shared).wf(),
        ensures
            final(self).wf(),
            final(shared).wf(),
            (*final(self), final(shared)@, cancel) == tick_step(*old(self), old(shared)@, bid, ask),
    {
        shared.update_ticker(bid, ask);
        match self.state {
            ChaseState::Chasing { side, qty, order_id, target_price } => {
                let p = maker_price_of(side, bid, ask);
                if has_moved(p, target_price) {
                    shared.push_log(moved_line(p));
                    self.state = ChaseState::Transitioning;
                    self.pending = Some(
                        Pending::Cancelling {
                            cancel_id: order_id,
                            intent: OrderIntent { side, qty, price: p },
                        },
                    );
                    shared.update_chase_desc(String::from_str("Re-posicionando orden..."));
                    Some(order_id)
                } else {
                    None
                }
            },
            _ => None,
        }
    }

    /// Handles the outcome of cancelling the order being replaced (see
    /// `cancel_step`): `None` when it was cancelled, otherwise the error
    /// text. Returns the replacement to place; its reply goes to
    /// `on_order_reply`.
    pub fn on_cancel_outcome(&mut self, shared: &mut SharedState, error: Option<String>) -> (place: Option<OrderIntent>)
        requires
            old(self).wf(),
            old(self).pending matches Some(Pending::Cancelling { .. }),
            old(shared).wf(),
        ensures
            final(self).wf(),
            final(shared).wf(),
            (*final(self), final(shared)@, place) == cancel_step(
                *old(self),
                old(shared)@,
                match error {
                    Some(e) => Some(e@),
                    None => None,
                },
            ),
    {
        let (cancel_id, intent) = match self.pending {
            Some(Pending::Cancelling { cancel_id, intent }) => (cancel_id, intent),
            _ => {
                assert(false);
                return None;
            },
        };
        match error {
            None => {
                shared.push_log(id_line("[Chase] Orden ", cancel_id, " cancelada."));
                self.pending = Some(Pending::Replacing(intent));
                Some(intent)
            },
            Some(e) => {
                if is_order_gone(e.as_str()) {
                    shared.push_log(
                        id_line("[SUCCESS] ¡Llenada! Persecución completada (ID: ", cancel_id, ")."),
                    );
                    self.state = ChaseState::Idle;
                    self.pending = None;
                    shared.update_chase_desc(String::from_str("Idle"));
                    None
                } else {
                    shared.push_log(cancel_warning_line(cancel_id, e.as_str()));
                    self.pending = Some(Pending::Replacing(intent));
                    Some(intent)
                }
            },
        }
    }

    /// Handles the reply to a placement (see `reply_step`): the order id
    /// read from the reply, or the error text.
    pub fn on_order_reply(&mut self, shared: &mut SharedState, reply: Result<Option<i64>, String>)
        requires
            old(self).wf(),
            old(self).pending matches Some(Pending::Initial(_)) || old(self).pending matches Some(
                Pending::Replacing(_),
            ),
            old(shared).wf(),
        ensures
            final(self).wf(),
            final(shared).wf(),
            (*final(self), final(shared)@) == reply_step(
                *old(self),
                old(shared)@,
                match reply {
                    Ok(id) => Ok(id),
                    Err(e) => Err(e@),
                },
            ),
    {
        let (intent, initial) = match self.pending {
            Some(Pending::Initial(intent)) => (intent, true),
            Some(Pending::Replacing(intent)) => (intent, false),
            _ => {
                assert(false);
                return ;
            },
        };
        match reply {
            Ok(Some(id)) => {
                if initial {
                    shared.push_log(order_line("[SUCCESS] Orden ID ", id, " colocada @ ", intent.price, "."));
                } else {
                    shared.push_log(
                        order_line("[Chase] Nueva orden Maker colocada: ID=", id, " Precio=", intent.price, ""),
                    );
                    proof {
                        reveal_strlit("");
                        assert(replaced_msg(id, intent.price) =~= "[Chase] Nueva orden Maker colocada: ID="@
                            + int_text(id as int) + " Precio="@ + seven_decimal_text(intent.price as nat) + ""@);
                    }
                }
                self.state = ChaseState::Chasing {
                    side: intent.side,
                    qty: intent.qty,
                    order_id: id,
                    target_price: intent.price,
                };
                self.pending = None;
                shared.update_chase_desc(chasing_line(intent.side, intent.price));
            },
            Ok(None) => {
                self.pending = None;
            },
            Err(e) => {
                if initial {
                    shared.push_log(error_line("[Error] Error inicial: ", e.as_str()));
                } else {
                    shared.push_log(error_line("[Error] Fallo al colocar orden: ", e.as_str()));
                }
                self.state = ChaseState::Idle;
                self.pending = None;
                shared.update_chase_desc(String::from_str("Idle"));
            },
        }
    }

    /// Handles a command from the window (see `command_step`).
    pub fn on_command(&mut self, shared: &mut SharedState, cmd: Command) -> (effect: CommandEffect)
        requires
            old(self).wf(),
            !old(self).awaiting(),
            old(shared).wf(),
        ensures
            final(self).wf(),
            final(shared).wf(),
            (*final(self), final(shared)@, effect) == command_step(*old(self), old(shared)@, cmd),
    {
        match cmd {
            Command::UpdateQty(q) => {
                self.qty = q;
                shared.update_shared_qty(q);
                CommandEffect { stop_order: None, drop_order: None, place: None }
            },
            Command::CancelChase => match self.state {
                ChaseState::Chasing { order_id, .. } => {
                    self.state = ChaseState::Idle;
                    shared.update_chase_desc(String::from_str("Idle"));
                    CommandEffect { stop_order: Some(order_id), drop_order: None, place: None }
                },
                _ => CommandEffect { stop_order: None, drop_order: None, place: None },
            },
            Command::StartChase(side) => {
                let drop = match self.state {
                    ChaseState::Chasing { order_id, .. } => Some(order_id),
                    _ => None,
                };
                let price = maker_price_of(side, shared.bid(), shared.ask());
                if price == 0 {
                    shared.push_log(String::from_str("[Error] Esperando precios de WebSocket..."));
                    CommandEffect { stop_order: None, drop_order: drop, place: None }
                } else {
                    let intent = OrderIntent { side, qty: self.qty, price };
                    shared.push_log(placing_line(side, self.qty, price));
                    self.state = ChaseState::Transitioning;
                    self.pending = Some(Pending::Initial(intent));
                    shared.update_chase_desc(String::from_str("Enviando orden inicial..."));
                    CommandEffect { stop_order: None, drop_order: drop, place: Some(intent) }
                }
            },
        }
    }
}

/// Logs that an order stopped from the window has been cancelled.
pub fn report_stopped(shared: &mut SharedState, id: i64)
    requires
        old(shared).wf(),
    ensures
        final(shared).wf(),
        final(shared)@ == old(shared)@.log(stopped_msg(id)),
{
    shared.push_log(id_line("[System] Orden ID ", id, " cancelada."));
}


// Laws of the chase ---------------------------------------------------------

/// Every step keeps the chaser well formed.
pub proof fn law_steps_keep_chaser_well_formed(c: Chaser, s: SharedView, bid: u64, ask: u64, cmd: Command, error: Option<Seq<char>>, reply: Result<Option<i64>, Seq<char>>)
    requires
        c.wf(),
    ensures
        !c.awaiting() ==> tick_step(c, s, bid, ask).0.wf(),
        !c.awaiting() ==> command_step(c, s, cmd).0.wf(),
        c.pending matches Some(Pending::Cancelling { .. }) ==> cancel_step(c, s, error).0.wf(),
        (c.pending matches Some(Pending::Initial(_)) || c.pending matches Some(Pending::Replacing(_)))
            ==> reply_step(c, s, reply).0.wf(),
{
}

/// A book ticker that leaves the maker price within the tolerance of the
/// resting order's price changes nothing but the shown prices.
pub proof fn law_unmoved_book_keeps_the_chase(c: Chaser, s: SharedView, bid: u64, ask: u64)
    requires
        c.state matches ChaseState::Chasing { side, target_price, .. } && !price_moved(
            maker_price(side, bid, ask),
            target_price,
        ),
    ensures
        tick_step(c, s, bid, ask) == (c, s.with_ticker(bid, ask), None::<i64>),
{
}

/// When the maker price moves, the resting order is cancelled and replaced
/// by an order of the same side and quantity at the new maker price (the
/// best bid when buying, the best ask when selling), which is then chased;
/// this holds whether the cancel succeeded or failed for a reason other
/// than the order being gone.
pub proof fn law_moved_book_replaces_the_order(
    c: Chaser,
    s: SharedView,
    bid: u64,
    ask: u64,
    cancel_error: Option<Seq<char>>,
    new_id: i64,
)
    requires
        c.wf(),
        !c.awaiting(),
        c.state matches ChaseState::Chasing { side, target_price, .. } && price_moved(
            maker_price(side, bid, ask),
            target_price,
        ),
        cancel_error matches Some(e) ==> !order_gone(e),
    ensures
        ({
            let side = c.state->side;
            let qty = c.state->qty;
            let order_id = c.state->order_id;
            let p = maker_price(side, bid, ask);
            let (c1, s1, cancel) = tick_step(c, s, bid, ask);
            let (c2, s2, place) = cancel_step(c1, s1, cancel_error);
            let (c3, s3) = reply_step(c2, s2, Ok(Some(new_id)));
            &&& cancel == Some(order_id)
            &&& place == Some(OrderIntent { side, qty, price: p })
            &&& c3.state == ChaseState::Chasing { side, qty, order_id: new_id, target_price: p }
            &&& c3.pending is None
            &&& c3.qty == c.qty
            &&& s3.desc == chasing_desc(side, p)
        }),
{
}

/// When the order to be replaced turns out to be gone (filled), the chase
/// ends and nothing new is placed.
pub proof fn law_filled_order_ends_the_chase(c: Chaser, s: SharedView, bid: u64, ask: u64, err: Seq<char>)
    requires
        c.wf(),
        !c.awaiting(),
        c.state matches ChaseState::Chasing { side, target_price, .. } && price_moved(
            maker_price(side, bid, ask),
            target_price,
        ),
        order_gone(err),
    ensures
        ({
            let (c1, s1, cancel) = tick_step(c, s, bid, ask);
            let (c2, s2, place) = cancel_step(c1, s1, Some(err));
            &&& c2.state == ChaseState::Idle
            &&& c2.pending is None
            &&& place is None
            &&& s2.desc == "Idle"@
        }),
{
}

/// A failed placement ends the chase.
pub proof fn law_failed_placement_ends_the_chase(c: Chaser, s: SharedView, err: Seq<char>)
    requires
        c.pending matches Some(Pending::Initial(_)) || c.pending matches Some(Pending::Replacing(_)),
    ensures
        reply_step(c, s, Err(err)).0.state == ChaseState::Idle,
        reply_step(c, s, Err(err)).0.pending is None,
{
}

/// Stopping a chase cancels exactly the resting order and leaves the chaser
/// idle; without a chase, stopping does nothing.
pub proof fn law_stop_cancels_the_resting_order(c: Chaser, s: SharedView)
    ensures
        c.state matches ChaseState::Chasing { order_id, .. } ==> {
            let (c1, s1, e) = command_step(c, s, Command::CancelChase);
            &&& c1.state == ChaseState::Idle
            &&& e == CommandEffect { stop_order: Some(order_id), drop_order: None, place: None }
        },
        !(c.state is Chasing) ==> command_step(c, s, Command::CancelChase) == (c, s, no_effect()),
{
}

/// A chase starts with an order of the current quantity at the maker price
/// of its side, and never while that price is unknown (zero).
pub proof fn law_start_rests_at_the_top_of_the_book(c: Chaser, s: SharedView, side: Side)
    ensures
        ({
            let (c1, s1, e) = command_step(c, s, Command::StartChase(side));
            let p = maker_price(side, s.bid, s.ask);
            &&& p == 0 ==> c1 == c && e.place is None
            &&& p != 0 ==> e.place == Some(OrderIntent { side, qty: c.qty, price: p })
                && c1.state == ChaseState::Transitioning
            &&& e.drop_order == match c.state {
                ChaseState::Chasing { order_id, .. } => Some(order_id),
                _ => None,
            }
        }),
{
}

/// The quantity set from the window is the quantity of the next chase.
pub proof fn law_updated_quantity_is_traded(c: Chaser, s: SharedView, q: u64, side: Side)
    ensures
        ({
            let (c1, s1, e1) = command_step(c, s, Command::UpdateQty(q));
            let (c2, s2, e2) = command_step(c1, s1, Command::StartChase(side));
            &&& s1.qty == q
            &&& e2.place matches Some(intent) ==> intent.qty == q
        }),
{
}


/// The tolerance is one ten-millionth: a maker price counts as moved
/// exactly when it differs from the resting order's price by more than ten
/// hundred-millionths, however large the difference, in either direction.
pub proof fn law_moved_means_beyond_one_ten_millionth(current: u64, target: u64)
    ensures
        price_moved(current, target) <==> (current > target + 10 || target > current + 10),
        MOVE_TOLERANCE == 10,
{
}

/// A chase reacts to every book ticker whose best price on its side (the
/// bid for a buy, the ask for a sell) differs from the resting order's
/// price by more than 0.0000001, and to no other: it asks for exactly the
/// resting order to be cancelled, and the replacement it then places is of
/// the same side and quantity at that best price.
pub proof fn law_chase_follows_every_move(c: Chaser, s: SharedView, bid: u64, ask: u64, cancel_error: Option<Seq<char>>)
    requires
        c.state is Chasing,
        cancel_error matches Some(e) ==> !contains_text(e, "-2011"@) && !contains_text(
            e,
            "Order already filled"@,
        ),
    ensures
        ({
            let side = c.state->side;
            let target = c.state->target_price;
            let best = if side == Side::Buy {
                bid
            } else {
                ask
            };
            let moved = best > target + 10 || target > best + 10;
            let (c1, s1, cancel) = tick_step(c, s, bid, ask);
            &&& moved ==> cancel == Some(c.state->order_id)
            &&& !moved ==> cancel is None && c1 == c
            &&& moved ==> cancel_step(c1, s1, cancel_error).2 == Some(
                OrderIntent { side, qty: c.state->qty, price: best },
            )
        }),
{
}

/// A failed cancel ends the chase exactly when its error text holds the
/// exchange's unknown-order code `-2011` or the words "Order already
/// filled"; any other failure (another error code, a network error) still
/// places the replacement.
pub proof fn law_only_gone_orders_end_the_chase(c: Chaser, s: SharedView, err: Seq<char>)
    requires
        c.wf(),
        c.pending matches Some(Pending::Cancelling { .. }),
    ensures
        ({
            let gone = contains_text(err, "-2011"@) || contains_text(err, "Order already filled"@);
            let (c1, s1, place) = cancel_step(c, s, Some(err));
            &&& gone <==> place is None
            &&& gone <==> c1.state == ChaseState::Idle
            &&& !gone ==> place == Some(c.pending->0->intent)
        }),
{
}

/// An order that was placed is chased as it was placed: its side, quantity
/// and price are those of the placement, whether it opened the chase or
/// replaced the previous order.
pub proof fn law_placed_order_is_chased_as_placed(c: Chaser, s: SharedView, id: i64)
    requires
        c.pending matches Some(Pending::Initial(_)) || c.pending matches Some(Pending::Replacing(_)),
    ensures
        ({
            let intent = match c.pending {
                Some(Pending::Initial(i)) => i,
                Some(Pending::Replacing(i)) => i,
                _ => arbitrary(),
            };
            reply_step(c, s, Ok(Some(id))).0.state == ChaseState::Chasing {
                side: intent.side,
                qty: intent.qty,
                order_id: id,
                target_price: intent.price,
            }
        }),
{
}

/// The traded quantity changes only through `UpdateQty`, which sets it:
/// book tickers, cancel outcomes, placement replies and every other
/// command leave it as it was.
pub proof fn law_quantity_changes_only_when_updated(
    c: Chaser,
    s: SharedView,
    bid: u64,
    ask: u64,
    cmd: Command,
    error: Option<Seq<char>>,
    reply: Result<Option<i64>, Seq<char>>,
)
    ensures
        tick_step(c, s, bid, ask).0.qty == c.qty,
        cancel_step(c, s, error).0.qty == c.qty,
        reply_step(c, s, reply).0.qty == c.qty,
        command_step(c, s, cmd).0.qty == match cmd {
            Command::UpdateQty(q) => q,
            _ => c.qty,
        },
{
}

/// The quantity set from the window is traded by the chase that follows,
/// also after that chase has been placed and its price moved: after
/// `UpdateQty(q)`, a start at a known price, a placed order and a move of
/// the book, the replacement is again for `q`.
pub proof fn law_window_quantity_is_kept_through_the_chase(
    c: Chaser,
    s: SharedView,
    q: u64,
    side: Side,
    id: i64,
    bid: u64,
    ask: u64,
)
    requires
        c.wf(),
        !c.awaiting(),
        (if side == Side::Buy {
            s.bid
        } else {
            s.ask
        }) != 0,
    ensures
        ({
            let (c1, s1, e1) = command_step(c, s, Command::UpdateQty(q));
            let (c2, s2, e2) = command_step(c1, s1, Command::StartChase(side));
            let (c3, s3) = reply_step(c2, s2, Ok(Some(id)));
            let (c4, s4, cancel) = tick_step(c3, s3, bid, ask);
            let (c5, s5, place) = cancel_step(c4, s4, None);
            &&& e2.place matches Some(i) && i.qty == q
            &&& c3.state->qty == q
            &&& cancel is Some ==> (place matches Some(i) && i.qty == q)
            &&& c5.qty == q
        }),
{
}

/// Stopping a chase keeps the quantity: the next chase trades what the
/// window last set.
pub proof fn law_stop_keeps_the_quantity(c: Chaser, s: SharedView, side: Side)
    requires
        (if side == Side::Buy {
            s.bid
        } else {
            s.ask
        }) != 0,
    ensures
        ({
            let (c1, s1, e1) = command_step(c, s, Command::CancelChase);
            let (c2, s2, e2) = command_step(c1, s1, Command::StartChase(side));
            &&& c1.qty == c.qty
            &&& e2.place matches Some(i) && i.qty == c.qty
        }),
{
}

// The book-ticker stream ----------------------------------------------------

/// A price field read as an amount, or zero when `units_of_text` reads
/// none from it.
pub open spec fn units_or_zero(text: Seq<char>) -> u64 {
    match units_of_text(text) {
        Some(u) => u,
        None => 0,
    }
}

/// The best bid (`b`) and best ask (`a`) of a book-ticker message, when
/// the message is a JSON object with both as strings. A price that is not a
/// number, or that an amount cannot hold (a negative price, `inf`, `nan`,
/// more than `u64::MAX` hundred-millionths), reads as zero, which stands for
/// an unknown price.
pub open spec fn book_ticker(text: Seq<char>) -> Option<(u64, u64)> {
    match (json_text_field(text, "b"@), json_text_field(text, "a"@)) {
        (Some(b), Some(a)) => Some((units_or_zero(b), units_or_zero(a))),
        _ => None,
    }
}

fn price_or_zero(text: &str) -> (u: u64)
    ensures
        u == units_or_zero(text@),
{
    match parse_units(text) {
        Some(u) => u,
        None => 0,
    }
}

/// Reads a book-ticker message (see `book_ticker`).
pub fn read_book_ticker(text: &str) -> (r: Option<(u64, u64)>)
    ensures
        r == book_ticker(text@),
{
    let b = text_field(text, "b");
    let a = text_field(text, "a");
    match (b, a) {
        (Some(b), Some(a)) => Some((price_or_zero(b.as_str()), price_or_zero(a.as_str()))),
        _ => None,
    }
}

/// The stream is being (re)connected.
pub fn stream_connecting(shared: &mut SharedState)
    requires
        old(shared).wf(),
    ensures
        final(shared).wf(),
        final(shared)@ == old(shared)@.log("[WebSocket] Conectando..."@),
{
    shared.push_log(String::from_str("[WebSocket] Conectando..."));
}

/// The stream is connected.
pub fn stream_connected(shared: &mut SharedState)
    requires
        old(shared).wf(),
    ensures
        final(shared).wf(),
        final(shared)@ == old(shared)@.log("[WebSocket] ¡Conectado con éxito!"@).with_connected(true),
{
    shared.push_log(String::from_str("[WebSocket] ¡Conectado con éxito!"));
    shared.set_ws_connected(true);
}

/// The stream ended or sent something other than text; it is reconnected.
pub fn stream_lost(shared: &mut SharedState)
    requires
        old(shared).wf(),
    ensures
        final(shared).wf(),
        final(shared)@ == old(shared)@.log("[WebSocket] Desconectado de stream. Reintentando..."@).with_connected(
            false,
        ),
{
    shared.push_log(String::from_str("[WebSocket] Desconectado de stream. Reintentando..."));
    shared.set_ws_connected(false);
}

/// Connecting failed with `err`; another try follows after three seconds.
pub fn stream_connect_failed(shared: &mut SharedState, err: &str)
    requires
        old(shared).wf(),
    ensures
        final(shared).wf(),
        final(shared)@ == old(shared)@.log(
            "[WebSocket] Error de conexión: "@ + err@ + ". Reintentando en 3s..."@,
        ),
{
    let mut m = String::from_str("[WebSocket] Error de conexión: ");
    m.append(err);
    m.append(". Reintentando en 3s...");
    shared.push_log(m);
}

/// The clock synchronisation failed with `err`.
pub fn clock_sync_failed(shared: &mut SharedState, err: &str)
    requires
        old(shared).wf(),
    ensures
        final(shared).wf(),
        final(shared)@ == old(shared)@.log("[Warning] Error sync time: "@ + err@),
{
    shared.push_log(error_line("[Warning] Error sync time: ", err));
}

} // verus!
