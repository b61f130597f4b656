//! The Binance USDⓈ-M futures client: credentials, clock offset, signed
//! order requests, and the judgement of the exchange's replies. Sending the
//! requests and reading the clock are left to the caller.

use vstd::prelude::*;
use crate::decimal::{amount_text, int_text, int_text_value, law_int_text_reads_back, nat_text, push_amount, push_int, push_nat, push_seven_decimals, seven_decimal_text};
use crate::json::{int_field, json_int_field, json_syntax_error, syntax_error};
use crate::signing::{sign_query, signature_of};
use crate::text::{trim_text, trimmed, TrimKind};

verus! {

pub open spec fn base_url_for(testnet: bool) -> Seq<char> {
    if testnet {
        "https://testnet.binancefuture.com"@
    } else {
        "https://fapi.binance.com"@
    }
}

/// The endpoint of every order request.
pub open spec fn order_path() -> Seq<char> {
    "/fapi/v1/order"@
}

/// The query of a new order: a post-only limit order (time in force GTX)
/// with the quantity in plain decimal and the price with seven decimals.
pub open spec fn order_query(symbol: Seq<char>, side: Seq<char>, qty: u64, price: u64, timestamp: i64) -> Seq<char> {
    "symbol="@ + symbol + "&side="@ + side + "&type=LIMIT&timeInForce=GTX&quantity="@
        + amount_text(qty as nat) + "&price="@ + seven_decimal_text(price as nat) + "&timestamp="@
        + int_text(timestamp as int) + "&recvWindow=5000"@
}

/// The query that names an existing order.
pub open spec fn order_ref_query(symbol: Seq<char>, order_id: i64, timestamp: i64) -> Seq<char> {
    "symbol="@ + symbol + "&orderId="@ + int_text(order_id as int) + "&timestamp="@ + int_text(
        timestamp as int,
    ) + "&recvWindow=5000"@
}

#[derive(Clone, Copy, PartialEq, Eq, Structural, Debug)]
pub enum HttpMethod {
    Get,
    Post,
    Delete,
}

/// A request ready to be sent with the API key header.
pub struct SignedRequest {
    pub method: HttpMethod,
    pub url: String,
}

/// Why a request failed.
#[derive(Debug)]
pub enum ApiError {
    /// The request could not be sent or the reply not read; the text says why.
    Transport(String),
    /// The reply is not JSON; the text is the parser's message.
    Json(String),
    /// The exchange answered with a status outside 200–299.
    Status { code: u16, body: String },
}

/// The text of a status as the HTTP client prints it: the code and its
/// reason phrase, such as `400 Bad Request`.
pub uninterp spec fn status_display(code: u16) -> Seq<char>;

/// `reqwest::StatusCode::from_u16` and the status's `Display`. The contract
/// claims what `from_u16` shows (it accepts exactly the codes 100–999) and
/// that the text is a function of the code.
#[verifier::external_body]
fn status_text(code: u16) -> (r: Option<String>)
    ensures
        r is Some <==> 100 <= code <= 999,
        r matches Some(t) ==> t@ == status_display(code),
{
    match reqwest::StatusCode::from_u16(code) {
        Ok(status) => Some(status.to_string()),
        Err(_) => None,
    }
}

impl ApiError {
    /// The text of the error as the log shows it. A rejected status reads
    /// `Binance API Error: status=<status> body=<body>`; a code that is not
    /// an HTTP status (outside 100–999) is written as its number alone.
    pub open spec fn message_text(&self) -> Seq<char> {
        match self {
            ApiError::Transport(m) => m@,
            ApiError::Json(m) => m@,
            ApiError::Status { code, body } => "Binance API Error: status="@ + if 100 <= *code <= 999 {
                status_display(*code)
            } else {
                nat_text(*code as nat)
            } + " body="@ + body@,
        }
    }

    /// The text of the error (see `message_text`).
    pub fn message(&self) -> (m: String)
        ensures
            m@ == self.message_text(),
    {
        match self {
            ApiError::Transport(m) => m.clone(),
            ApiError::Json(m) => m.clone(),
            ApiError::Status { code, body } => {
                let mut m = String::from_str("Binance API Error: status=");
                match status_text(*code) {
                    Some(t) => m.append(t.as_str()),
                    None => push_nat(&mut m, *code as u64),
                }
                m.append(" body=");
                m.append(body.as_str());
                m
            },
        }
    }
}

pub struct BinanceClientView {
    pub api_key: Seq<char>,
    pub api_secret: Seq<char>,
    pub base_url: Seq<char>,
    pub time_offset: i64,
}

impl BinanceClientView {
    /// The exchange's clock reading for a local reading, in milliseconds.
    pub open spec fn timestamp(self, local_ms: i64) -> int {
        local_ms + self.time_offset
    }

    pub open spec fn timestamp_fits(self, local_ms: i64) -> bool {
        i64::MIN <= self.timestamp(local_ms) <= i64::MAX
    }

    /// The URL of a signed order request with `query`.
    pub open spec fn signed_url(self, query: Seq<char>) -> Seq<char> {
        self.base_url + order_path() + "?"@ + query + "&signature="@ + signature_of(self.api_secret, query)
    }

    /// The client after learning that the server's clock read
    /// `server_time` when the local one read `local_ms`, and whether the
    /// offset was set: it is not without a server time, nor when the offset
    /// does not fit an `i64`.
    pub open spec fn with_server_time(self, server_time: Option<i64>, local_ms: i64) -> (BinanceClientView, bool) {
        match server_time {
            Some(t) => if i64::MIN <= t - local_ms <= i64::MAX {
                (BinanceClientView { time_offset: (t - local_ms) as i64, ..self }, true)
            } else {
                (self, false)
            },
            None => (self, false),
        }
    }

    /// The client after a clock synchronisation with the reply `reply`
    /// at local time `local_ms`, and the result.
    pub open spec fn synced(self, reply: Seq<char>, local_ms: i64) -> (BinanceClientView, Result<bool, Seq<char>>) {
        match json_syntax_error(reply) {
            Some(msg) => (self, Err(msg)),
            None => {
                let (c, set) = self.with_server_time(json_int_field(reply, "serverTime"@), local_ms);
                (c, Ok(set))
            },
        }
    }
}

#[derive(Clone)]
pub struct BinanceClient {
    api_key: String,
    api_secret: String,
    base_url: String,
    time_offset: i64,
}

impl View for BinanceClient {
    type V = BinanceClientView;

    closed spec fn view(&self) -> BinanceClientView {
        BinanceClientView {
            api_key: self.api_key@,
            api_secret: self.api_secret@,
            base_url: self.base_url@,
            time_offset: self.time_offset,
        }
    }
}

impl BinanceClient {
    /// A client for the live exchange, or for the test network when
    /// `testnet` holds, with surrounding white space removed from the
    /// credentials and no clock offset.
    pub fn new(api_key: String, api_secret: String, testnet: bool) -> (c: BinanceClient)
        ensures
            c@ == (BinanceClientView {
                api_key: trimmed(api_key@, TrimKind::WhiteSpace),
                api_secret: trimmed(api_secret@, TrimKind::WhiteSpace),
                base_url: base_url_for(testnet),
                time_offset: 0,
            }),
    {
        let base_url = if testnet {
            String::from_str("https://testnet.binancefuture.com")
        } else {
            String::from_str("https://fapi.binance.com")
        };
        BinanceClient {
            api_key: trim_text(api_key.as_str(), TrimKind::WhiteSpace),
            api_secret: trim_text(api_secret.as_str(), TrimKind::WhiteSpace),
            base_url,
            time_offset: 0,
        }
    }

    pub fn api_key(&self) -> (k: &str)
        ensures
            k@ == self@.api_key,
    {
        self.api_key.as_str()
    }

    pub fn base_url(&self) -> (u: &str)
        ensures
            u@ == self@.base_url,
    {
        self.base_url.as_str()
    }

    pub fn time_offset(&self) -> (o: i64)
        ensures
            o == self@.time_offset,
    {
        self.time_offset
    }

    /// The URL of the exchange's server-time endpoint.
    pub fn server_time_url(&self) -> (u: String)
        ensures
            u@ == self@.base_url + "/fapi/v1/time"@,
    {
        let mut u = self.base_url.clone();
        u.append("/fapi/v1/time");
        u
    }

    /// Whether the exchange's clock reading for `local_ms` fits an `i64`.
    pub fn timestamp_fits(&self, local_ms: i64) -> (b: bool)
        ensures
            b == self@.timestamp_fits(local_ms),
    {
        let sum = local_ms as i128 + self.time_offset as i128;
        i64::MIN as i128 <= sum && sum <= i64::MAX as i128
    }

    /// The exchange's clock reading for the local reading `local_ms`.
    pub fn timestamp_at(&self, local_ms: i64) -> (t: i64)
        requires
            self@.timestamp_fits(local_ms),
        ensures
            t == self@.timestamp(local_ms),
    {
        local_ms + self.time_offset
    }

    /// Aligns the clock with the exchange's: `reply` is the body of the
    /// server-time request and `local_ms` the local clock when it came.
    /// Fails when the reply is not JSON; returns whether the offset was
    /// set, which it is not when the reply has no integer `serverTime` or
    /// the offset does not fit an `i64`.
    pub fn sync_time(&mut self, reply: &str, local_ms: i64) -> (r: Result<bool, ApiError>)
        ensures
            final(self)@ == old(self)@.synced(reply@, local_ms).0,
            match (r, old(self)@.synced(reply@, local_ms).1) {
                (Ok(b), Ok(b2)) => b == b2,
                (Err(ApiError::Json(m)), Err(m2)) => m@ == m2,
                _ => false,
            },
    {
        match syntax_error(reply) {
            Some(msg) => Err(ApiError::Json(msg)),
            None => Ok(self.apply_server_time(int_field(reply, "serverTime"), local_ms)),
        }
    }

    /// Sets the clock offset from the server's time `server_time` read at
    /// local time `local_ms` (see `with_server_time`); returns whether it
    /// was set.
    pub fn apply_server_time(&mut self, server_time: Option<i64>, local_ms: i64) -> (set: bool)
        ensures
            (final(self)@, set) == old(self)@.with_server_time(server_time, local_ms),
    {
        match server_time {
            Some(t) => {
                let diff = t as i128 - local_ms as i128;
                if i64::MIN as i128 <= diff && diff <= i64::MAX as i128 {
                    self.time_offset = diff as i64;
                    true
                } else {
                    false
                }
            },
            None => false,
        }
    }

    /// The signature of `query` under the API secret.
    pub fn sign(&self, query: &str) -> (sig: String)
        ensures
            sig@ == signature_of(self@.api_secret, query@),
            sig@.len() == 64,
    {
        sign_query(self.api_secret.as_str(), query)
    }

    fn signed_url(&self, query: &str) -> (url: String)
        ensures
            url@ == self@.signed_url(query@),
    {
        let signature = self.sign(query);
        let mut url = self.base_url.clone();
        url.append("/fapi/v1/order");
        url.append("?");
        url.append(query);
        url.append("&signature=");
        url.append(signature.as_str());
        url
    }

    /// The signed request for a post-only limit order of `qty` at `price`
    /// (amounts in hundred-millionths) at local time `local_ms`.
    pub fn place_limit_maker_order(&self, symbol: &str, side: &str, qty: u64, price: u64, local_ms: i64) -> (req: SignedRequest)
        requires
            self@.timestamp_fits(local_ms),
        ensures
            req.method == HttpMethod::Post,
            req.url@ == self@.signed_url(
                order_query(symbol@, side@, qty, price, self@.timestamp(local_ms) as i64),
            ),
    {
        let timestamp = self.timestamp_at(local_ms);
        let mut query = String::from_str("symbol=");
        query.append(symbol);
        query.append("&side=");
        query.append(side);
        query.append("&type=LIMIT&timeInForce=GTX&quantity=");
        push_amount(&mut query, qty);
        query.append("&price=");
        push_seven_decimals(&mut query, price);
        query.append("&timestamp=");
        push_int(&mut query, timestamp);
        query.append("&recvWindow=5000");
        SignedRequest { method: HttpMethod::Post, url: self.signed_url(query.as_str()) }
    }

    fn order_ref_url(&self, symbol: &str, order_id: i64, local_ms: i64) -> (url: String)
        requires
            self@.timestamp_fits(local_ms),
        ensures
            url@ == self@.signed_url(
                order_ref_query(symbol@, order_id, self@.timestamp(local_ms) as i64),
            ),
    {
        let timestamp = self.timestamp_at(local_ms);
        let mut query = String::from_str("symbol=");
        query.append(symbol);
        query.append("&orderId=");
        push_int(&mut query, order_id);
        query.append("&timestamp=");
        push_int(&mut query, timestamp);
        query.append("&recvWindow=5000");
        self.signed_url(query.as_str())
    }

    /// The signed request that cancels order `order_id`.
    pub fn cancel_order(&self, symbol: &str, order_id: i64, local_ms: i64) -> (req: SignedRequest)
        requires
            self@.timestamp_fits(local_ms),
        ensures
            req.method == HttpMethod::Delete,
            req.url@ == self@.signed_url(
                order_ref_query(symbol@, order_id, self@.timestamp(local_ms) as i64),
            ),
    {
        SignedRequest { method: HttpMethod::Delete, url: self.order_ref_url(symbol, order_id, local_ms) }
    }

    /// The signed request that reads order `order_id`.
    pub fn query_order(&self, symbol: &str, order_id: i64, local_ms: i64) -> (req: SignedRequest)
        requires
            self@.timestamp_fits(local_ms),
        ensures
            req.method == HttpMethod::Get,
            req.url@ == self@.signed_url(
                order_ref_query(symbol@, order_id, self@.timestamp(local_ms) as i64),
            ),
    {
        SignedRequest { method: HttpMethod::Get, url: self.order_ref_url(symbol, order_id, local_ms) }
    }
}

/// The judgement of a reply whose body is `body` and whose JSON parse
/// failed with `syntax` (`None` when the body is JSON): a body that is not
/// JSON fails with the parser's message; otherwise a status outside
/// 200–299 fails with the status and body; otherwise the reply is accepted.
pub open spec fn reply_judgement(status: u16, syntax: Option<Seq<char>>, body: Seq<char>, r: Result<(), ApiError>) -> bool {
    match syntax {
        Some(msg) => r matches Err(ApiError::Json(m)) && m@ == msg,
        None => if 200 <= status <= 299 {
            r is Ok
        } else {
            r matches Err(ApiError::Status { code, body: b }) && code == status && b@ == body
        },
    }
}

/// Judges a reply given the outcome of parsing its body as JSON (see
/// `reply_judgement`).
pub fn judge_reply(status: u16, syntax: Option<String>, body: &str) -> (r: Result<(), ApiError>)
    ensures
        reply_judgement(
            status,
            match syntax {
                Some(m) => Some(m@),
                None => None,
            },
            body@,
            r,
        ),
{
    match syntax {
        Some(msg) => Err(ApiError::Json(msg)),
        None => if 200 <= status && status <= 299 {
            Ok(())
        } else {
            Err(ApiError::Status { code: status, body: String::from_str(body) })
        },
    }
}

/// Judges a reply of the exchange (see `reply_judgement`), parsing its body
/// as JSON.
pub fn check_response(status: u16, body: &str) -> (r: Result<(), ApiError>)
    ensures
        reply_judgement(status, json_syntax_error(body@), body@, r),
{
    judge_reply(status, syntax_error(body), body)
}

/// The id of the order that an order reply describes.
pub fn order_id_of(body: &str) -> (id: Option<i64>)
    ensures
        id == json_int_field(body@, "orderId"@),
{
    int_field(body, "orderId")
}


/// After a clock synchronisation that set the offset, the exchange
/// timestamp computed for the local reading taken at synchronisation is the
/// server's time; a synchronisation that did not set it changes nothing.
pub proof fn law_sync_aligns_the_clock(c: BinanceClientView, reply: Seq<char>, local_ms: i64)
    ensures
        c.synced(reply, local_ms).1 == Ok::<bool, Seq<char>>(true) ==> {
            &&& json_int_field(reply, "serverTime"@) is Some
            &&& c.synced(reply, local_ms).0.timestamp_fits(local_ms)
            &&& c.synced(reply, local_ms).0.timestamp(local_ms) == json_int_field(
                reply,
                "serverTime"@,
            )->0
        },
        c.synced(reply, local_ms).1 != Ok::<bool, Seq<char>>(true) ==> c.synced(reply, local_ms).0 == c,
{
}

/// Every new order is a limit order that is only accepted as a maker
/// (time in force GTX), and every order request is sent with the signature
/// of exactly its own query.
pub proof fn law_orders_are_post_only_and_signed(
    c: BinanceClientView,
    symbol: Seq<char>,
    side: Seq<char>,
    qty: u64,
    price: u64,
    timestamp: i64,
)
    ensures
        crate::text::contains_text(
            order_query(symbol, side, qty, price, timestamp),
            "&type=LIMIT&timeInForce=GTX&"@,
        ),
        c.signed_url(order_query(symbol, side, qty, price, timestamp)) == c.base_url + order_path()
            + "?"@ + order_query(symbol, side, qty, price, timestamp) + "&signature="@
            + signature_of(c.api_secret, order_query(symbol, side, qty, price, timestamp)),
{
    reveal_strlit("&type=LIMIT&timeInForce=GTX&quantity=");
    reveal_strlit("&type=LIMIT&timeInForce=GTX&");
    let q = order_query(symbol, side, qty, price, timestamp);
    let head = "symbol="@ + symbol + "&side="@ + side;
    let marker = "&type=LIMIT&timeInForce=GTX&"@;
    let fixed = "&type=LIMIT&timeInForce=GTX&quantity="@;
    assert(fixed.subrange(0, marker.len() as int) =~= marker);
    let at = head.len() as int;
    assert(q.subrange(at, at + marker.len()) =~= marker) by {
        assert forall|k: int| 0 <= k < marker.len() implies q[at + k] == marker[k] by {
            assert(q =~= head + fixed + (amount_text(qty as nat) + "&price="@ + seven_decimal_text(price as nat)
                + "&timestamp="@ + int_text(timestamp as int) + "&recvWindow=5000"@));
        }
    }
    assert(crate::text::occurs_at(q, marker, at));
}


/// A cancel or query request names exactly the order it was given, and the
/// timestamp it was given: the text between `&orderId=` and `&timestamp=`
/// reads back as the order id, for every `i64` id, and the text between
/// `&timestamp=` and `&recvWindow=` reads back as the timestamp.
pub proof fn law_order_reference_names_the_order(symbol: Seq<char>, order_id: i64, timestamp: i64)
    ensures
        exists|id_text: Seq<char>, time_text: Seq<char>|
            {
                &&& order_ref_query(symbol, order_id, timestamp) == "symbol="@ + symbol + "&orderId="@
                    + id_text + "&timestamp="@ + time_text + "&recvWindow=5000"@
                &&& int_text_value(id_text) == order_id
                &&& int_text_value(time_text) == timestamp
            },
{
    law_int_text_reads_back(order_id as int);
    law_int_text_reads_back(timestamp as int);
    let id_text = int_text(order_id as int);
    let time_text = int_text(timestamp as int);
    assert(order_ref_query(symbol, order_id, timestamp) == "symbol="@ + symbol + "&orderId="@ + id_text
        + "&timestamp="@ + time_text + "&recvWindow=5000"@);
}

/// A new order's request names its quantity, price and timestamp as given:
/// the quantity reads back as the amount, the price is that amount with
/// seven decimals, and the timestamp reads back as the timestamp.
pub proof fn law_order_names_what_was_given(symbol: Seq<char>, side: Seq<char>, qty: u64, price: u64, timestamp: i64)
    ensures
        exists|qty_text: Seq<char>, time_text: Seq<char>|
            {
                &&& order_query(symbol, side, qty, price, timestamp) == "symbol="@ + symbol + "&side="@
                    + side + "&type=LIMIT&timeInForce=GTX&quantity="@ + qty_text + "&price="@
                    + seven_decimal_text(price as nat) + "&timestamp="@ + time_text
                    + "&recvWindow=5000"@
                &&& crate::decimal::units_of_text(qty_text) == Some(qty)
                &&& int_text_value(time_text) == timestamp
            },
{
    crate::decimal::law_amount_text_reads_back(qty);
    law_int_text_reads_back(timestamp as int);
    let qty_text = amount_text(qty as nat);
    let time_text = int_text(timestamp as int);
    assert(order_query(symbol, side, qty, price, timestamp) == "symbol="@ + symbol + "&side="@ + side
        + "&type=LIMIT&timeInForce=GTX&quantity="@ + qty_text + "&price="@ + seven_decimal_text(
        price as nat,
    ) + "&timestamp="@ + time_text + "&recvWindow=5000"@);
}

} // verus!
