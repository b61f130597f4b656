//! What the window shows: connection flag, best bid and ask, the quantity to
//! trade, a one-line description of the chase, and the most recent log lines.

use vstd::prelude::*;

verus! {

/// The number of log lines that are kept; older lines are dropped first.
pub const MAX_LOG_LINES: usize = 15;

/// Appends `msg` and drops the oldest line when more than `MAX_LOG_LINES` remain.
pub open spec fn capped_push(logs: Seq<Seq<char>>, msg: Seq<char>) -> Seq<Seq<char>> {
    let l = logs.push(msg);
    if l.len() > MAX_LOG_LINES {
        l.drop_first()
    } else {
        l
    }
}

/// The contents of a `SharedState`.
pub struct SharedView {
    pub connected: bool,
    pub bid: u64,
    pub ask: u64,
    pub qty: u64,
    pub desc: Seq<char>,
    pub logs: Seq<Seq<char>>,
}

impl SharedView {
    pub open spec fn log(self, msg: Seq<char>) -> SharedView {
        SharedView { logs: capped_push(self.logs, msg), ..self }
    }

    pub open spec fn describe(self, desc: Seq<char>) -> SharedView {
        SharedView { desc, ..self }
    }

    pub open spec fn with_ticker(self, bid: u64, ask: u64) -> SharedView {
        SharedView { bid, ask, ..self }
    }

    pub open spec fn with_qty(self, qty: u64) -> SharedView {
        SharedView { qty, ..self }
    }

    pub open spec fn with_connected(self, connected: bool) -> SharedView {
        SharedView { connected, ..self }
    }
}

/// State shared between the trading loop and the window. Prices and the
/// quantity are amounts in hundred-millionths (see `decimal`).
pub struct SharedState {
    connected: bool,
    bid: u64,
    ask: u64,
    qty: u64,
    chase_state_desc: String,
    logs: Vec<String>,
}

impl View for SharedState {
    type V = SharedView;

    closed spec fn view(&self) -> SharedView {
        SharedView {
            connected: self.connected,
            bid: self.bid,
            ask: self.ask,
            qty: self.qty,
            desc: self.chase_state_desc@,
            logs: self.logs.deep_view(),
        }
    }
}

/// The quantity the window starts with: ten thousand contracts.
pub const INITIAL_QTY: u64 = 1_000_000_000_000;

impl SharedState {
    /// Never more than `MAX_LOG_LINES` log lines are held.
    pub open spec fn wf(&self) -> bool {
        self@.logs.len() <= MAX_LOG_LINES
    }

    /// The state at start-up: disconnected, no prices, the default quantity,
    /// described as idle, with one log line announcing the start.
    pub fn new() -> (s: SharedState)
        ensures
            s.wf(),
            s@ == (SharedView {
                connected: false,
                bid: 0,
                ask: 0,
                qty: INITIAL_QTY,
                desc: "Idle"@,
                logs: seq!["Aplicación iniciada."@],
            }),
    {
        let mut logs: Vec<String> = Vec::new();
        logs.push(String::from_str("Aplicación iniciada."));
        let s = SharedState {
            connected: false,
            bid: 0,
            ask: 0,
            qty: INITIAL_QTY,
            chase_state_desc: String::from_str("Idle"),
            logs,
        };
        assert(s@.logs =~= seq!["Aplicación iniciada."@]);
        s
    }

    /// Appends a log line, dropping the oldest one when the log is full.
    pub fn push_log(&mut self, msg: String)
        requires
            old(self).wf(),
        ensures
            final(self).wf(),
            final(self)@ == old(self)@.log(msg@),
    {
        let ghost before = self.logs.deep_view();
        self.logs.push(msg);
        assert(self.logs.deep_view() =~= before.push(msg@));
        if self.logs.len() > MAX_LOG_LINES {
            let ghost pushed = self.logs.deep_view();
            self.logs.remove(0);
            assert(self.logs.deep_view() =~= pushed.drop_first());
        }
    }

    pub fn set_ws_connected(&mut self, connected: bool)
        requires
            old(self).wf(),
        ensures
            final(self).wf(),
            final(self)@ == old(self)@.with_connected(connected),
    {
        self.connected = connected;
    }

    pub fn update_ticker(&mut self, bid: u64, ask: u64)
        requires
            old(self).wf(),
        ensures
            final(self).wf(),
            final(self)@ == old(self)@.with_ticker(bid, ask),
    {
        self.bid = bid;
        self.ask = ask;
    }

    pub fn update_chase_desc(&mut self, desc: String)
        requires
            old(self).wf(),
        ensures
            final(self).wf(),
            final(self)@ == old(self)@.describe(desc@),
    {
        self.chase_state_desc = desc;
    }

    pub fn update_shared_qty(&mut self, qty: u64)
        requires
            old(self).wf(),
        ensures
            final(self).wf(),
            final(self)@ == old(self)@.with_qty(qty),
    {
        self.qty = qty;
    }

    pub fn connected(&self) -> (b: bool)
        ensures
            b == self@.connected,
    {
        self.connected
    }

    pub fn bid(&self) -> (p: u64)
        ensures
            p == self@.bid,
    {
        self.bid
    }

    pub fn ask(&self) -> (p: u64)
        ensures
            p == self@.ask,
    {
        self.ask
    }

    pub fn qty(&self) -> (q: u64)
        ensures
            q == self@.qty,
    {
        self.qty
    }

    pub fn chase_state_desc(&self) -> (d: &str)
        ensures
            d@ == self@.desc,
    {
        self.chase_state_desc.as_str()
    }

    pub fn logs(&self) -> (l: &Vec<String>)
        ensures
            l.deep_view() == self@.logs,
    {
        &self.logs
    }
}

/// The log keeps at most `MAX_LOG_LINES` lines, the newest one last, and
/// drops only the oldest line when it overflows.
pub proof fn law_log_is_bounded_and_keeps_newest(logs: Seq<Seq<char>>, msg: Seq<char>)
    requires
        logs.len() <= MAX_LOG_LINES,
    ensures
        capped_push(logs, msg).len() <= MAX_LOG_LINES,
        capped_push(logs, msg).last() == msg,
        logs.len() < MAX_LOG_LINES ==> capped_push(logs, msg) == logs.push(msg),
        logs.len() == MAX_LOG_LINES ==> capped_push(logs, msg) == logs.drop_first().push(msg),
{
    if logs.len() == MAX_LOG_LINES {
        assert(logs.push(msg).drop_first() =~= logs.drop_first().push(msg));
    }
}


/// The log after `msgs` are appended one by one.
pub open spec fn push_all(logs: Seq<Seq<char>>, msgs: Seq<Seq<char>>) -> Seq<Seq<char>>
    decreases msgs.len(),
{
    if msgs.len() == 0 {
        logs
    } else {
        capped_push(push_all(logs, msgs.drop_last()), msgs.last())
    }
}

/// How many of the oldest lines are gone once `total` lines were logged.
pub open spec fn dropped_lines(total: nat) -> nat {
    if total > MAX_LOG_LINES {
        (total - MAX_LOG_LINES) as nat
    } else {
        0
    }
}

/// After any number of log lines, the log holds the newest ones, at most
/// `MAX_LOG_LINES` of them, in the order they were logged.
pub proof fn law_log_keeps_the_newest_lines(logs: Seq<Seq<char>>, msgs: Seq<Seq<char>>)
    requires
        logs.len() <= MAX_LOG_LINES,
    ensures
        push_all(logs, msgs) == (logs + msgs).skip(dropped_lines((logs + msgs).len()) as int),
        push_all(logs, msgs).len() <= MAX_LOG_LINES,
    decreases msgs.len(),
{
    if msgs.len() == 0 {
        assert(logs + msgs =~= logs);
        assert(logs.skip(0) =~= logs);
    } else {
        let prev_msgs = msgs.drop_last();
        law_log_keeps_the_newest_lines(logs, prev_msgs);
        let all_prev = logs + prev_msgs;
        let all = logs + msgs;
        assert(all =~= all_prev.push(msgs.last()));
        let k = dropped_lines(all_prev.len());
        let prev = push_all(logs, prev_msgs);
        assert(prev.push(msgs.last()) =~= all.skip(k as int));
        if prev.push(msgs.last()).len() > MAX_LOG_LINES {
            assert(all.skip(k as int).drop_first() =~= all.skip(k as int + 1));
        }
    }
}

} // verus!
