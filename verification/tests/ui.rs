use rust_chaser::chaser::{Command, Side};
use rust_chaser::ui::{on_ui_action, UiAction};

#[test]
fn editing_the_quantity_sends_it_when_it_reads() {
    let out = on_ui_action(UiAction::QtyEdited, 0, "2500.5");
    assert_eq!(out.qty_input, None);
    assert_eq!(out.command, Some(Command::UpdateQty(250_050_000_000)));
    assert_eq!(on_ui_action(UiAction::QtyEdited, 0, "-3").command, None);
    assert_eq!(on_ui_action(UiAction::QtyEdited, 0, "1e3").command, Some(Command::UpdateQty(100_000_000_000)));
    assert_eq!(on_ui_action(UiAction::QtyEdited, 0, "-0").command, Some(Command::UpdateQty(0)));
    assert_eq!(on_ui_action(UiAction::QtyEdited, 0, "inf").command, None);
    assert_eq!(on_ui_action(UiAction::QtyEdited, 0, "").command, None);
}

#[test]
fn presets_add_to_the_shown_quantity() {
    let out = on_ui_action(UiAction::AddThousand, 1_000_000_000_000, "10000");
    assert_eq!(out.qty_input, Some("11000".to_string()));
    assert_eq!(out.command, Some(Command::UpdateQty(1_100_000_000_000)));
    let out = on_ui_action(UiAction::AddFiveThousand, 50_000_000, "0.5");
    assert_eq!(out.qty_input, Some("5000.5".to_string()));
    assert_eq!(out.command, Some(Command::UpdateQty(500_050_000_000)));
}

#[test]
fn preset_text_reads_back_as_the_sent_quantity() {
    let out = on_ui_action(UiAction::AddThousand, 123_456_789, "1.23456789");
    let edited = on_ui_action(UiAction::QtyEdited, 0, out.qty_input.as_deref().unwrap());
    assert_eq!(edited.command, out.command);
}

#[test]
fn clear_and_buttons() {
    let out = on_ui_action(UiAction::Clear, 5, "x");
    assert_eq!(out.qty_input, Some("0".to_string()));
    assert_eq!(out.command, Some(Command::UpdateQty(0)));
    assert_eq!(on_ui_action(UiAction::Buy, 0, "").command, Some(Command::StartChase(Side::Buy)));
    assert_eq!(on_ui_action(UiAction::Sell, 0, "").command, Some(Command::StartChase(Side::Sell)));
    assert_eq!(on_ui_action(UiAction::Stop, 0, "").command, Some(Command::CancelChase));
}
