use rust_chaser::chaser::{
    has_moved, is_order_gone, read_book_ticker, report_stopped, stream_connect_failed, stream_connected,
    stream_connecting, stream_lost, clock_sync_failed, ChaseState, Chaser, Command, CommandEffect, OrderIntent,
    Pending, Side,
};
use rust_chaser::status::{SharedState, INITIAL_QTY, MAX_LOG_LINES};

const BID: u64 = 1_045_600; // 0.0104560
const ASK: u64 = 1_045_700; // 0.0104570

fn last_log(s: &SharedState) -> String {
    s.logs().last().unwrap().clone()
}

/// A chaser that rests a buy order 77 at the bid.
fn chasing_buy() -> (Chaser, SharedState) {
    let mut c = Chaser::new();
    let mut s = SharedState::new();
    c.on_book_ticker(&mut s, BID, ASK);
    let eff = c.on_command(&mut s, Command::StartChase(Side::Buy));
    assert_eq!(eff.place, Some(OrderIntent { side: Side::Buy, qty: INITIAL_QTY, price: BID }));
    c.on_order_reply(&mut s, Ok(Some(77)));
    (c, s)
}

#[test]
fn starts_idle_with_the_default_quantity() {
    let c = Chaser::new();
    let s = SharedState::new();
    assert_eq!(c.state, ChaseState::Idle);
    assert_eq!(c.qty, INITIAL_QTY);
    assert_eq!(s.qty(), INITIAL_QTY);
    assert_eq!(s.chase_state_desc(), "Idle");
    assert_eq!(s.logs(), &vec!["Aplicación iniciada.".to_string()]);
    assert!(!s.connected());
}

#[test]
fn start_waits_for_prices() {
    let mut c = Chaser::new();
    let mut s = SharedState::new();
    let eff = c.on_command(&mut s, Command::StartChase(Side::Sell));
    assert_eq!(eff, CommandEffect { stop_order: None, drop_order: None, place: None });
    assert_eq!(c.state, ChaseState::Idle);
    assert_eq!(last_log(&s), "[Error] Esperando precios de WebSocket...");
}

#[test]
fn start_places_at_the_top_of_the_book() {
    let mut c = Chaser::new();
    let mut s = SharedState::new();
    c.on_book_ticker(&mut s, BID, ASK);
    assert_eq!((s.bid(), s.ask()), (BID, ASK));
    let eff = c.on_command(&mut s, Command::StartChase(Side::Sell));
    assert_eq!(eff.place, Some(OrderIntent { side: Side::Sell, qty: INITIAL_QTY, price: ASK }));
    assert_eq!(c.state, ChaseState::Transitioning);
    assert_eq!(c.pending, Some(Pending::Initial(OrderIntent { side: Side::Sell, qty: INITIAL_QTY, price: ASK })));
    assert_eq!(s.chase_state_desc(), "Enviando orden inicial...");
    assert_eq!(last_log(&s), "[System] Colocando orden SELL (10000 contratos) a 0.0104570...");
    c.on_order_reply(&mut s, Ok(Some(5)));
    assert_eq!(c.state, ChaseState::Chasing { side: Side::Sell, qty: INITIAL_QTY, order_id: 5, target_price: ASK });
    assert_eq!(c.pending, None);
    assert_eq!(s.chase_state_desc(), "Perseg. SELL @ 0.0104570");
    assert_eq!(last_log(&s), "[SUCCESS] Orden ID 5 colocada @ 0.0104570.");
}

#[test]
fn failed_first_order_returns_to_idle() {
    let mut c = Chaser::new();
    let mut s = SharedState::new();
    c.on_book_ticker(&mut s, BID, ASK);
    c.on_command(&mut s, Command::StartChase(Side::Buy));
    c.on_order_reply(&mut s, Err("boom".to_string()));
    assert_eq!(c.state, ChaseState::Idle);
    assert_eq!(s.chase_state_desc(), "Idle");
    assert_eq!(last_log(&s), "[Error] Error inicial: boom");
}

#[test]
fn reply_without_order_id_stays_between_states() {
    let mut c = Chaser::new();
    let mut s = SharedState::new();
    c.on_book_ticker(&mut s, BID, ASK);
    c.on_command(&mut s, Command::StartChase(Side::Buy));
    c.on_order_reply(&mut s, Ok(None));
    assert_eq!(c.state, ChaseState::Transitioning);
    assert_eq!(c.pending, None);
    assert_eq!(s.chase_state_desc(), "Enviando orden inicial...");
    assert_eq!(c.on_book_ticker(&mut s, BID + 1000, ASK), None);
    assert_eq!(c.on_command(&mut s, Command::CancelChase), CommandEffect { stop_order: None, drop_order: None, place: None });
}

#[test]
fn unmoved_book_keeps_the_order() {
    let (mut c, mut s) = chasing_buy();
    assert_eq!(c.on_book_ticker(&mut s, BID + 10, ASK + 500), None);
    assert_eq!(c.state, ChaseState::Chasing { side: Side::Buy, qty: INITIAL_QTY, order_id: 77, target_price: BID });
    assert_eq!(s.bid(), BID + 10);
}

#[test]
fn moved_book_replaces_the_order() {
    let (mut c, mut s) = chasing_buy();
    let new_bid = BID + 100; // 0.0104570
    assert_eq!(c.on_book_ticker(&mut s, new_bid, ASK), Some(77));
    assert_eq!(c.state, ChaseState::Transitioning);
    assert_eq!(s.chase_state_desc(), "Re-posicionando orden...");
    assert_eq!(last_log(&s), "[Chase] Precio movido a 0.0104570. Re-colocando orden...");
    let next = c.on_cancel_outcome(&mut s, None);
    assert_eq!(next, Some(OrderIntent { side: Side::Buy, qty: INITIAL_QTY, price: new_bid }));
    assert_eq!(last_log(&s), "[Chase] Orden 77 cancelada.");
    c.on_order_reply(&mut s, Ok(Some(78)));
    assert_eq!(c.state, ChaseState::Chasing { side: Side::Buy, qty: INITIAL_QTY, order_id: 78, target_price: new_bid });
    assert_eq!(last_log(&s), "[Chase] Nueva orden Maker colocada: ID=78 Precio=0.0104570");
    assert_eq!(s.chase_state_desc(), "Perseg. BUY @ 0.0104570");
}

#[test]
fn cancel_failure_still_replaces() {
    let (mut c, mut s) = chasing_buy();
    c.on_book_ticker(&mut s, BID - 50, ASK);
    let next = c.on_cancel_outcome(&mut s, Some("timeout".to_string()));
    assert_eq!(next, Some(OrderIntent { side: Side::Buy, qty: INITIAL_QTY, price: BID - 50 }));
    assert_eq!(last_log(&s), "[Warning] No se pudo cancelar 77: timeout.");
    c.on_order_reply(&mut s, Err("rejected".to_string()));
    assert_eq!(c.state, ChaseState::Idle);
    assert_eq!(last_log(&s), "[Error] Fallo al colocar orden: rejected");
}

#[test]
fn filled_order_ends_the_chase() {
    let (mut c, mut s) = chasing_buy();
    c.on_book_ticker(&mut s, BID + 11, ASK);
    let err = "Binance API Error: status=400 Bad Request body={\"code\":-2011,\"msg\":\"Unknown order sent.\"}";
    assert_eq!(c.on_cancel_outcome(&mut s, Some(err.to_string())), None);
    assert_eq!(c.state, ChaseState::Idle);
    assert_eq!(c.pending, None);
    assert_eq!(s.chase_state_desc(), "Idle");
    assert_eq!(last_log(&s), "[SUCCESS] ¡Llenada! Persecución completada (ID: 77).");
}

#[test]
fn stop_cancels_the_resting_order() {
    let (mut c, mut s) = chasing_buy();
    let eff = c.on_command(&mut s, Command::CancelChase);
    assert_eq!(eff, CommandEffect { stop_order: Some(77), drop_order: None, place: None });
    assert_eq!(c.state, ChaseState::Idle);
    assert_eq!(s.chase_state_desc(), "Idle");
    report_stopped(&mut s, 77);
    assert_eq!(last_log(&s), "[System] Orden ID 77 cancelada.");
}

#[test]
fn restart_drops_the_previous_order() {
    let (mut c, mut s) = chasing_buy();
    let eff = c.on_command(&mut s, Command::StartChase(Side::Sell));
    assert_eq!(eff.drop_order, Some(77));
    assert_eq!(eff.place, Some(OrderIntent { side: Side::Sell, qty: INITIAL_QTY, price: ASK }));
}

#[test]
fn updated_quantity_is_traded_next() {
    let mut c = Chaser::new();
    let mut s = SharedState::new();
    c.on_book_ticker(&mut s, BID, ASK);
    c.on_command(&mut s, Command::UpdateQty(250_000_000_000));
    assert_eq!(s.qty(), 250_000_000_000);
    let eff = c.on_command(&mut s, Command::StartChase(Side::Buy));
    assert_eq!(eff.place.unwrap().qty, 250_000_000_000);
    assert_eq!(last_log(&s), "[System] Colocando orden BUY (2500 contratos) a 0.0104560...");
}

#[test]
fn tolerance_is_one_ten_millionth() {
    assert!(!has_moved(100, 110));
    assert!(has_moved(100, 111));
    assert!(!has_moved(110, 100));
    assert!(has_moved(111, 100));
}

#[test]
fn gone_orders_are_recognised() {
    assert!(is_order_gone("{\"code\":-2011}"));
    assert!(is_order_gone("Order already filled"));
    assert!(!is_order_gone("{\"code\":-1021}"));
}

#[test]
fn book_ticker_messages_are_read() {
    let msg = "{\"e\":\"bookTicker\",\"s\":\"1000PEPEUSDC\",\"b\":\"0.0104560\",\"B\":\"1000\",\"a\":\"0.0104570\",\"A\":\"20\"}";
    assert_eq!(read_book_ticker(msg), Some((BID, ASK)));
    assert_eq!(read_book_ticker("{\"b\":\"x\",\"a\":\"0.5\"}"), Some((0, 50_000_000)));
    assert_eq!(read_book_ticker("{\"b\":\"1.0456e-2\",\"a\":\"-1\"}"), Some((BID, 0)));
    assert_eq!(read_book_ticker("{\"b\":\"0.1\"}"), None);
    assert_eq!(read_book_ticker("{\"b\":0.1,\"a\":\"0.2\"}"), None);
    assert_eq!(read_book_ticker("not json"), None);
}

#[test]
fn log_keeps_the_last_fifteen_lines() {
    let mut s = SharedState::new();
    for i in 0..20 {
        s.push_log(format!("line {}", i));
    }
    assert_eq!(s.logs().len(), MAX_LOG_LINES);
    assert_eq!(s.logs()[0], "line 5");
    assert_eq!(last_log(&s), "line 19");
}

#[test]
fn connection_events_are_logged() {
    let mut s = SharedState::new();
    stream_connecting(&mut s);
    assert_eq!(last_log(&s), "[WebSocket] Conectando...");
    stream_connected(&mut s);
    assert!(s.connected());
    assert_eq!(last_log(&s), "[WebSocket] ¡Conectado con éxito!");
    stream_lost(&mut s);
    assert!(!s.connected());
    assert_eq!(last_log(&s), "[WebSocket] Desconectado de stream. Reintentando...");
    stream_connect_failed(&mut s, "refused");
    assert_eq!(last_log(&s), "[WebSocket] Error de conexión: refused. Reintentando en 3s...");
    clock_sync_failed(&mut s, "offline");
    assert_eq!(last_log(&s), "[Warning] Error sync time: offline");
}
