//! The window's controls: what each one does to the quantity field and
//! which command it sends to the trading loop.

use vstd::prelude::*;
use crate::chaser::{Command, Side};
use crate::decimal::{amount_text, amount_to_text, law_amount_text_reads_back, parse_units, units_of_text, UNITS_PER_WHOLE};

verus! {

/// A control of the window.
#[derive(Clone, Copy, PartialEq, Eq, Structural, Debug)]
pub enum UiAction {
    /// The quantity field was edited: its text is sent as the quantity when
    /// it reads as an amount (see `units_of_text`); negative numbers other
    /// than zero, `inf` and `nan` send nothing.
    QtyEdited,
    /// The "+1000" button.
    AddThousand,
    /// The "+5000" button.
    AddFiveThousand,
    /// The "Clear" button.
    Clear,
    /// The BUY (Maker) button.
    Buy,
    /// The SELL (Maker) button.
    Sell,
    /// The cancel / stop button.
    Stop,
}

/// What a control does: the new text of the quantity field, when it
/// changes, and the command to send, if any.
pub struct UiOutcome {
    pub qty_input: Option<String>,
    pub command: Option<Command>,
}

/// `current` plus `whole` whole units, held at the largest amount when the
/// sum does not fit.
pub open spec fn plus_whole(current: u64, whole: u64) -> u64 {
    let sum = current + whole * 100_000_000;
    if sum <= u64::MAX {
        sum as u64
    } else {
        u64::MAX
    }
}

/// The text shown in the quantity field and the command sent for a control,
/// given the quantity currently shown and the field's text.
pub open spec fn ui_step(action: UiAction, current_qty: u64, qty_input: Seq<char>) -> (Option<Seq<char>>, Option<Command>) {
    match action {
        UiAction::QtyEdited => (
            None,
            match units_of_text(qty_input) {
                Some(q) => Some(Command::UpdateQty(q)),
                None => None,
            },
        ),
        UiAction::AddThousand => {
            let next = plus_whole(current_qty, 1000);
            (Some(amount_text(next as nat)), Some(Command::UpdateQty(next)))
        },
        UiAction::AddFiveThousand => {
            let next = plus_whole(current_qty, 5000);
            (Some(amount_text(next as nat)), Some(Command::UpdateQty(next)))
        },
        UiAction::Clear => (Some("0"@), Some(Command::UpdateQty(0))),
        UiAction::Buy => (None, Some(Command::StartChase(Side::Buy))),
        UiAction::Sell => (None, Some(Command::StartChase(Side::Sell))),
        UiAction::Stop => (None, Some(Command::CancelChase)),
    }
}

fn add_whole(current: u64, whole: u64) -> (r: u64)
    requires
        whole <= 5000,
    ensures
        r == plus_whole(current, whole),
{
    let step = whole * UNITS_PER_WHOLE;
    current.saturating_add(step)
}

/// Handles a control of the window (see `ui_step`).
pub fn on_ui_action(action: UiAction, current_qty: u64, qty_input: &str) -> (out: UiOutcome)
    ensures
        (
            match out.qty_input {
                Some(t) => Some(t@),
                None => None,
            },
            out.command,
        ) == ui_step(action, current_qty, qty_input@),
{
    match action {
        UiAction::QtyEdited => UiOutcome {
            qty_input: None,
            command: match parse_units(qty_input) {
                Some(q) => Some(Command::UpdateQty(q)),
                None => None,
            },
        },
        UiAction::AddThousand => {
            let next = add_whole(current_qty, 1000);
            UiOutcome { qty_input: Some(amount_to_text(next)), command: Some(Command::UpdateQty(next)) }
        },
        UiAction::AddFiveThousand => {
            let next = add_whole(current_qty, 5000);
            UiOutcome { qty_input: Some(amount_to_text(next)), command: Some(Command::UpdateQty(next)) }
        },
        UiAction::Clear => UiOutcome {
            qty_input: Some(String::from_str("0")),
            command: Some(Command::UpdateQty(0)),
        },
        UiAction::Buy => UiOutcome { qty_input: None, command: Some(Command::StartChase(Side::Buy)) },
        UiAction::Sell => UiOutcome { qty_input: None, command: Some(Command::StartChase(Side::Sell)) },
        UiAction::Stop => UiOutcome { qty_input: None, command: Some(Command::CancelChase) },
    }
}


/// After a preset button, the quantity field shows text that reads back as
/// exactly the quantity that was sent, so editing the field without
/// changing it sends the same quantity again.
pub proof fn law_preset_text_reads_back(action: UiAction, current_qty: u64, qty_input: Seq<char>)
    requires
        action == UiAction::AddThousand || action == UiAction::AddFiveThousand,
    ensures
        ({
            let (text, cmd) = ui_step(action, current_qty, qty_input);
            &&& text is Some
            &&& cmd == ui_step(UiAction::QtyEdited, current_qty, text->0).1
        }),
{
    let next = if action == UiAction::AddThousand {
        plus_whole(current_qty, 1000)
    } else {
        plus_whole(current_qty, 5000)
    };
    law_amount_text_reads_back(next);
}

} // verus!
