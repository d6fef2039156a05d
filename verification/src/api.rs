//! Requests to the Binance REST API: endpoint addresses, query strings,
//! HMAC-SHA256 request signing, the parameters of each call, and the
//! checks on a reply before its body is used.

use vstd::prelude::*;
use vstd::string::*;
use vstd::utf8::encode_utf8;
use hmac::{Hmac, Mac};
use sha2::Sha256;
use crate::error::TradingError;
use crate::text::{decimal, signed_decimal, u128_to_decimal, i64_to_decimal, text_eq};
use crate::types::{OrderSide, OrderType, Timeframe, side_name, order_type_name, timeframe_label};

verus! {

/// A request parameter as text: its name and its value.
pub type ParamText = (Seq<char>, Seq<char>);

/// The text view of a list of request parameters.
pub open spec fn params_view(ps: Seq<(String, String)>) -> Seq<ParamText> {
    Seq::new(ps.len(), |i: int| (ps[i].0@, ps[i].1@))
}

/// One parameter in a query string: `name=value`.
pub open spec fn param_text(p: ParamText) -> Seq<char> {
    p.0 + "="@ + p.1
}

/// The parameters joined into a query string, separated by `&`.
pub open spec fn joined_params(ps: Seq<ParamText>) -> Seq<char>
    decreases ps.len(),
{
    if ps.len() == 0 {
        Seq::empty()
    } else if ps.len() == 1 {
        param_text(ps[0])
    } else {
        joined_params(ps.drop_last()) + "&"@ + param_text(ps.last())
    }
}

/// The parameters with `name` set to `value`: the first parameter of that
/// name gets the new value, or the parameter is added at the end.
pub open spec fn upsert_param(ps: Seq<ParamText>, name: Seq<char>, value: Seq<char>) -> Seq<ParamText>
    decreases ps.len(),
{
    if ps.len() == 0 {
        seq![(name, value)]
    } else if ps[0].0 == name {
        ps.update(0, (name, value))
    } else {
        seq![ps[0]] + upsert_param(ps.drop_first(), name, value)
    }
}

/// The HMAC-SHA256 authentication tag of `message` under `key`.
pub uninterp spec fn hmac_sha256(key: Seq<u8>, message: Seq<u8>) -> Seq<u8>;

/// A lowercase hexadecimal digit.
pub open spec fn hex_digit(n: nat) -> char {
    if n < 10 {
        (48 + n) as char
    } else {
        (87 + n) as char
    }
}

/// Bytes in lowercase hexadecimal, two digits per byte, high half first.
pub open spec fn hex_lower(bytes: Seq<u8>) -> Seq<char>
    decreases bytes.len(),
{
    if bytes.len() == 0 {
        Seq::empty()
    } else {
        seq![hex_digit((bytes[0] / 16) as nat), hex_digit((bytes[0] % 16) as nat)] + hex_lower(
            bytes.drop_first(),
        )
    }
}

/// The signature of a query: the hexadecimal HMAC-SHA256 tag of the
/// query's UTF-8 bytes under the secret key's UTF-8 bytes.
pub open spec fn signature_of(secret: Seq<char>, query: Seq<char>) -> Seq<char> {
    hex_lower(hmac_sha256(encode_utf8(secret), encode_utf8(query)))
}

/// A signed query: the query with its timestamp, then `&signature=` and
/// the signature of everything before it.
pub open spec fn signed_query_text(secret: Seq<char>, ps: Seq<ParamText>, timestamp: nat) -> Seq<char> {
    let query = joined_params(upsert_param(ps, "timestamp"@, decimal(timestamp)));
    query + "&signature="@ + signature_of(secret, query)
}

/// The address of the production API.
pub open spec fn production_url() -> Seq<char> {
    "https://api.binance.com"@
}

/// The address of the test network.
pub open spec fn testnet_url() -> Seq<char> {
    "https://testnet.binance.vision"@
}

/// The HMAC-SHA256 tag of `message` under `key`, from the `hmac` crate
/// (`Hmac<Sha256>`: `new_from_slice`, `update`, `finalize`, then the tag's
/// bytes). The tag is named `hmac_sha256` of the two byte strings; it is
/// 32 bytes long, the output size of SHA-256. `new_from_slice` accepts
/// keys of every length for HMAC, so the call cannot fail.
#[verifier::external_body]
fn hmac_sha256_tag(key: &[u8], message: &[u8]) -> (tag: Vec<u8>)
    ensures
        tag@ == hmac_sha256(key@, message@),
        tag@.len() == 32,
{
    let mut mac = <Hmac<Sha256> as Mac>::new_from_slice(key).expect("HMAC can take key of any size");
    mac.update(message);
    mac.finalize().into_bytes().to_vec()
}

/// `hex::encode`: the bytes in lowercase hexadecimal, two digits per byte,
/// high half first (the crate's table `0123456789abcdef`).
#[verifier::external_body]
fn hex_encode(bytes: &[u8]) -> (s: String)
    ensures
        s@ == hex_lower(bytes@),
{
    hex::encode(bytes)
}

fn append_param(r: &mut String, name: &str, value: &str)
    ensures
        final(r)@ == old(r)@ + param_text((name@, value@)),
{
    r.append(name);
    r.append("=");
    r.append(value);
}

/// Joins the parameters into a query string: `name=value` pairs in order,
/// separated by `&`.
pub fn query_string(params: &Vec<(String, String)>) -> (r: String)
    ensures
        r@ == joined_params(params_view(params@)),
{
    let ghost pv = params_view(params@);
    let mut r = String::new();
    let mut i: usize = 0;
    while i < params.len()
        invariant
            i <= params.len(),
            pv == params_view(params@),
            r@ == joined_params(pv.take(i as int)),
        decreases params.len() - i,
    {
        let ghost before = r@;
        if i > 0 {
            r.append("&");
        }
        append_param(&mut r, params[i].0.as_str(), params[i].1.as_str());
        proof {
            assert(pv.take(i + 1).drop_last() =~= pv.take(i as int));
            assert(pv.take(i + 1).last() == pv[i as int]);
            if i == 0 {
                assert(before =~= Seq::<char>::empty());
                assert(r@ =~= param_text(pv[0]));
            }
        }
        i += 1;
    }
    assert(pv.take(params.len() as int) =~= pv);
    r
}

proof fn lemma_upsert_at(ps: Seq<ParamText>, name: Seq<char>, value: Seq<char>, i: int)
    requires
        0 <= i < ps.len(),
        ps[i].0 == name,
        forall|j: int| 0 <= j < i ==> ps[j].0 != name,
    ensures
        upsert_param(ps, name, value) == ps.update(i, (name, value)),
    decreases i,
{
    if i > 0 {
        lemma_upsert_at(ps.drop_first(), name, value, i - 1);
        assert(ps.update(i, (name, value)) =~= seq![ps[0]] + ps.drop_first().update(
            i - 1,
            (name, value),
        ));
    }
}

proof fn lemma_upsert_absent(ps: Seq<ParamText>, name: Seq<char>, value: Seq<char>)
    requires
        forall|j: int| 0 <= j < ps.len() ==> ps[j].0 != name,
    ensures
        upsert_param(ps, name, value) == ps.push((name, value)),
    decreases ps.len(),
{
    if ps.len() > 0 {
        lemma_upsert_absent(ps.drop_first(), name, value);
        assert(ps.push((name, value)) =~= seq![ps[0]] + ps.drop_first().push((name, value)));
    }
}

/// Sets the parameter `name` to `value`: the first parameter of that name
/// gets the new value; without one, the parameter is added at the end.
pub fn set_param(params: &mut Vec<(String, String)>, name: &str, value: String)
    ensures
        params_view(final(params)@) == upsert_param(params_view(old(params)@), name@, value@),
{
    let ghost pv = params_view(params@);
    let mut i: usize = 0;
    while i < params.len()
        invariant
            i <= params.len(),
            pv == params_view(params@),
            pv == params_view(old(params)@),
            forall|j: int| 0 <= j < i ==> pv[j].0 != name@,
        decreases params.len() - i,
    {
        if text_eq(params[i].0.as_str(), name) {
            proof {
                lemma_upsert_at(pv, name@, value@, i as int);
            }
            let key = String::from_str(name);
            params.set(i, (key, value));
            assert(params_view(params@) =~= pv.update(i as int, (name@, value@)));
            return;
        }
        i += 1;
    }
    proof {
        lemma_upsert_absent(pv, name@, value@);
    }
    let key = String::from_str(name);
    params.push((key, value));
    assert(params_view(params@) =~= pv.push((name@, value@)));
}

/// Credentials and endpoint of the exchange. The HTTP transport that
/// carries the requests is held by the program, not by this type.
pub struct BinanceClient {
    api_key: String,
    secret_key: String,
    base_url: String,
}

impl BinanceClient {
    /// The API key sent with authenticated requests.
    pub closed spec fn spec_api_key(&self) -> Seq<char> {
        self.api_key@
    }

    /// The secret key that signs authenticated requests.
    pub closed spec fn spec_secret_key(&self) -> Seq<char> {
        self.secret_key@
    }

    /// The address requests are sent to.
    pub closed spec fn spec_base_url(&self) -> Seq<char> {
        self.base_url@
    }

    /// A client for the test network or for the production API.
    pub fn new(api_key: String, secret_key: String, use_testnet: bool) -> (c: Self)
        ensures
            c.spec_api_key() == api_key@,
            c.spec_secret_key() == secret_key@,
            c.spec_base_url() == if use_testnet {
                testnet_url()
            } else {
                production_url()
            },
    {
        let base_url = if use_testnet {
            String::from_str("https://testnet.binance.vision")
        } else {
            String::from_str("https://api.binance.com")
        };
        BinanceClient { api_key, secret_key, base_url }
    }

    /// The API key.
    pub fn api_key(&self) -> (r: &str)
        ensures
            r@ == self.spec_api_key(),
    {
        self.api_key.as_str()
    }

    /// The address requests are sent to.
    pub fn base_url(&self) -> (r: &str)
        ensures
            r@ == self.spec_base_url(),
    {
        self.base_url.as_str()
    }

    /// The signature of a query string under the secret key.
    pub fn sign(&self, query: &str) -> (r: String)
        ensures
            r@ == signature_of(self.spec_secret_key(), query@),
    {
        let tag = hmac_sha256_tag(self.secret_key.as_str().as_bytes(), query.as_bytes());
        hex_encode(tag.as_slice())
    }

    /// The signed query string of an authenticated request made at
    /// `timestamp` (milliseconds since the Unix epoch).
    pub fn build_signed_query(&self, params: Vec<(String, String)>, timestamp: u64) -> (r: String)
        ensures
            r@ == signed_query_text(self.spec_secret_key(), params_view(params@), timestamp as nat),
    {
        let mut params = params;
        set_param(&mut params, "timestamp", u128_to_decimal(timestamp as u128));
        let query = query_string(&params);
        let signature = self.sign(query.as_str());
        let mut r = query;
        r.append("&signature=");
        r.append(signature.as_str());
        r
    }

    /// The address of an endpoint with its query string.
    pub fn endpoint_url(&self, endpoint: &str, query: &str) -> (r: String)
        ensures
            r@ == self.spec_base_url() + "/api/v3/"@ + endpoint@ + "?"@ + query@,
    {
        let mut r = String::from_str(self.base_url.as_str());
        r.append("/api/v3/");
        r.append(endpoint);
        r.append("?");
        r.append(query);
        r
    }
}


/// The view of an optional text.
pub open spec fn opt_text(o: Option<&str>) -> Option<Seq<char>> {
    match o {
        Some(t) => Some(t@),
        None => None,
    }
}

/// The parameters of a new order: symbol, side, kind and quantity; with
/// a limit price, the price and a good-till-cancelled time in force; the
/// stop price and the client's order id when they are given.
pub open spec fn order_params_view(
    symbol: Seq<char>,
    side: OrderSide,
    order_type: OrderType,
    quantity: Seq<char>,
    price: Option<Seq<char>>,
    stop_price: Option<Seq<char>>,
    client_order_id: Option<Seq<char>>,
) -> Seq<ParamText> {
    let base = seq![
        ("symbol"@, symbol),
        ("side"@, side_name(side)),
        ("type"@, order_type_name(order_type)),
        ("quantity"@, quantity),
    ];
    let with_price = match price {
        Some(p) => base + seq![("price"@, p), ("timeInForce"@, "GTC"@)],
        None => base,
    };
    let with_stop = match stop_price {
        Some(p) => with_price.push(("stopPrice"@, p)),
        None => with_price,
    };
    match client_order_id {
        Some(id) => with_stop.push(("newClientOrderId"@, id)),
        None => with_stop,
    }
}

fn push_param(params: &mut Vec<(String, String)>, name: &str, value: &str)
    ensures
        params_view(final(params)@) == params_view(old(params)@).push((name@, value@)),
{
    params.push((String::from_str(name), String::from_str(value)));
    assert(params_view(params@) =~= params_view(old(params)@).push((name@, value@)));
}

/// The parameters that name a trading pair.
pub fn symbol_params(symbol: &str) -> (r: Vec<(String, String)>)
    ensures
        params_view(r@) == seq![("symbol"@, symbol@)],
{
    let mut r: Vec<(String, String)> = Vec::new();
    push_param(&mut r, "symbol", symbol);
    assert(params_view(Seq::<(String, String)>::empty()) =~= Seq::<ParamText>::empty());
    r
}

/// The parameters of a candle history request.
pub fn kline_params(symbol: &str, interval: Timeframe, limit: u32) -> (r: Vec<(String, String)>)
    ensures
        params_view(r@) == seq![
            ("symbol"@, symbol@),
            ("interval"@, timeframe_label(interval)),
            ("limit"@, decimal(limit as nat)),
        ],
{
    let mut r = symbol_params(symbol);
    push_param(&mut r, "interval", interval.label());
    let limit_text = u128_to_decimal(limit as u128);
    push_param(&mut r, "limit", limit_text.as_str());
    r
}

/// The parameters that name an order of a trading pair.
pub fn order_id_params(symbol: &str, order_id: &str) -> (r: Vec<(String, String)>)
    ensures
        params_view(r@) == seq![("symbol"@, symbol@), ("orderId"@, order_id@)],
{
    let mut r = symbol_params(symbol);
    push_param(&mut r, "orderId", order_id);
    r
}

/// The parameters of a new order. Quantities and prices come as the
/// decimal texts the exchange is sent.
pub fn order_params(
    symbol: &str,
    side: OrderSide,
    order_type: OrderType,
    quantity: &str,
    price: Option<&str>,
    stop_price: Option<&str>,
    client_order_id: Option<&str>,
) -> (r: Vec<(String, String)>)
    ensures
        params_view(r@) == order_params_view(
            symbol@,
            side,
            order_type,
            quantity@,
            opt_text(price),
            opt_text(stop_price),
            opt_text(client_order_id),
        ),
{
    let mut r = symbol_params(symbol);
    push_param(&mut r, "side", side.api_name());
    push_param(&mut r, "type", order_type.api_name());
    push_param(&mut r, "quantity", quantity);
    if let Some(p) = price {
        push_param(&mut r, "price", p);
        push_param(&mut r, "timeInForce", "GTC");
    }
    if let Some(p) = stop_price {
        push_param(&mut r, "stopPrice", p);
    }
    if let Some(id) = client_order_id {
        push_param(&mut r, "newClientOrderId", id);
    }
    r
}

/// Refuses a reply whose HTTP status is not a success, with the status
/// line and the body in the message.
pub fn check_http_status(success: bool, status_text: &str, body: &str) -> (r: Result<(), TradingError>)
    ensures
        r is Ok <==> success,
        !success ==> (r matches Err(TradingError::ApiError(m)) && m@ == "HTTP "@ + status_text@
            + ": "@ + body@),
{
    if success {
        Ok(())
    } else {
        let mut m = String::from_str("HTTP ");
        m.append(status_text);
        m.append(": ");
        m.append(body);
        Err(TradingError::ApiError(m))
    }
}

/// The message of an error reply: the exchange's message (or "Unknown
/// error" without one), then the code in brackets.
pub open spec fn api_error_message(code: i64, msg: Option<Seq<char>>) -> Seq<char> {
    let text = match msg {
        Some(m) => m,
        None => "Unknown error"@,
    };
    text + " (code: "@ + signed_decimal(code as int) + ")"@
}

/// Refuses a reply whose body carries a non-zero error `code`
/// (`code` is the body's integer `code` field, 0 where that field is
/// not an integer; `msg` its text `msg` field).
pub fn check_error_code(code: Option<i64>, msg: Option<&str>) -> (r: Result<(), TradingError>)
    ensures
        r is Err <==> (code is Some && code.unwrap() != 0),
        r is Err ==> (r matches Err(TradingError::ApiError(m)) && m@ == api_error_message(
            code.unwrap(),
            opt_text(msg),
        )),
{
    match code {
        Some(c) if c != 0 => {
            let mut m = match msg {
                Some(t) => String::from_str(t),
                None => String::from_str("Unknown error"),
            };
            m.append(" (code: ");
            let digits = i64_to_decimal(c);
            m.append(digits.as_str());
            m.append(")");
            Err(TradingError::ApiError(m))
        },
        _ => Ok(()),
    }
}

/// A parsed JSON document.
#[verifier::external_type_specification]
#[verifier::external_body]
pub struct ExJsonValue(serde_json::Value);

/// The JSON document that `serde_json` reads from `body`, or `None` where
/// it refuses the text.
pub uninterp spec fn json_document(body: Seq<char>) -> Option<serde_json::Value>;

/// Whether `serde_json` reads `body` as a JSON document.
pub open spec fn json_parses(body: Seq<char>) -> bool {
    json_document(body) is Some
}

/// The field `key` of the JSON document `body`, read as an `i64`: `None`
/// where the document has no such field (it is not an object, or the
/// object lacks the key), `Some(None)` where the field is not an `i64`.
pub uninterp spec fn json_int_field(body: Seq<char>, key: Seq<char>) -> Option<Option<i64>>;

/// The field `key` of the JSON document `body`, read as a string: `None`
/// where the document has no such field, `Some(None)` where the field is
/// not a string.
pub uninterp spec fn json_text_field(body: Seq<char>, key: Seq<char>) -> Option<Option<Seq<char>>>;

/// The text view of an optional, optionally textual field.
pub open spec fn opt_opt_text(m: Option<Option<String>>) -> Option<Option<Seq<char>>> {
    match m {
        Some(Some(s)) => Some(Some(s@)),
        Some(None) => Some(None),
        None => None,
    }
}

/// The error code that a reply's `code` field carries: a non-zero integer.
pub open spec fn reply_error_code(code: Option<Option<i64>>) -> Option<i64> {
    match code {
        Some(Some(c)) => if c != 0 {
            Some(c)
        } else {
            None
        },
        _ => None,
    }
}

/// The text of a reply's `msg` field, where it is a string.
pub open spec fn reply_message(msg: Option<Option<Seq<char>>>) -> Option<Seq<char>> {
    match msg {
        Some(Some(m)) => Some(m),
        _ => None,
    }
}

/// `serde_json::from_str` into a `serde_json::Value`, then the document's
/// field `int_key` read by `Value::get` and `Value::as_i64`, and its field
/// `text_key` read by `Value::get` and `Value::as_str` (`Value::get` finds
/// a field of an object, and nothing in any other value). Parsing and
/// reading are functions of the text and the keys alone, hence the names
/// `json_document`, `json_int_field` and `json_text_field`.
#[verifier::external_body]
fn parse_with_fields(body: &str, int_key: &str, text_key: &str) -> (r: Result<
    (serde_json::Value, Option<Option<i64>>, Option<Option<String>>),
    serde_json::Error,
>)
    ensures
        r is Ok <==> json_parses(body@),
        r matches Ok((doc, code, msg)) ==> json_document(body@) == Some(doc) && code
            == json_int_field(body@, int_key@) && opt_opt_text(msg) == json_text_field(
            body@,
            text_key@,
        ),
{
    match serde_json::from_str::<serde_json::Value>(body) {
        Ok(v) => {
            let code = v.get(int_key).map(serde_json::Value::as_i64);
            let msg = v.get(text_key).map(serde_json::Value::as_str).map(|m| m.map(String::from));
            Ok((v, code, msg))
        },
        Err(e) => Err(e),
    }
}

/// Decides on a parsed reply body, given as the document with its `code`
/// and `msg` fields (or the parser's error): a parser error becomes a JSON
/// error; a non-zero integer `code` refuses the reply, with the `msg` text
/// (or "Unknown error" where it is not a string) and the code; otherwise
/// the document itself is given back.
pub fn check_parsed_reply(
    parsed: Result<(serde_json::Value, Option<Option<i64>>, Option<Option<String>>), serde_json::Error>,
) -> (r: Result<serde_json::Value, TradingError>)
    ensures
        match parsed {
            Err(e) => r matches Err(TradingError::JsonError(f)) && f == e,
            Ok((doc, code, msg)) => match reply_error_code(code) {
                Some(c) => r matches Err(TradingError::ApiError(m)) && m@ == api_error_message(
                    c,
                    reply_message(opt_opt_text(msg)),
                ),
                None => r matches Ok(d) && d == doc,
            },
        },
{
    match parsed {
        Err(e) => Err(TradingError::JsonError(e)),
        Ok((doc, code, msg)) => {
            let flat_code: Option<i64> = match code {
                Some(Some(c)) => Some(c),
                Some(None) => Some(0),
                None => None,
            };
            let flat_msg: Option<&str> = match &msg {
                Some(Some(m)) => Some(m.as_str()),
                _ => None,
            };
            match check_error_code(flat_code, flat_msg) {
                Err(e) => Err(e),
                Ok(()) => Ok(doc),
            }
        },
    }
}

/// Reads a reply: refuses an HTTP status that is not a success (with the
/// status line and the body in the message), then parses the body with its
/// `code` and `msg` fields and decides on it by `check_parsed_reply`. A
/// reply that is not refused gives back the document its body reads as.
pub fn check_reply(success: bool, status_text: &str, body: &str) -> (r: Result<serde_json::Value, TradingError>)
    ensures
        !success ==> (r matches Err(TradingError::ApiError(m)) && m@ == "HTTP "@ + status_text@
            + ": "@ + body@),
        success && !json_parses(body@) ==> r matches Err(TradingError::JsonError(_)),
        success && json_parses(body@) ==> match reply_error_code(json_int_field(body@, "code"@)) {
            Some(c) => r matches Err(TradingError::ApiError(m)) && m@ == api_error_message(
                c,
                reply_message(json_text_field(body@, "msg"@)),
            ),
            None => r matches Ok(d) && json_document(body@) == Some(d),
        },
{
    match check_http_status(success, status_text, body) {
        Err(e) => return Err(e),
        Ok(()) => {},
    }
    check_parsed_reply(parse_with_fields(body, "code", "msg"))
}

/// The parameters of a new order begin with the symbol, side, kind and
/// quantity. A given price is followed at once by `timeInForce=GTC`,
/// whatever the stop price and the client order id; without a price
/// neither appears. A given stop price comes after them, and a given
/// client order id comes last; nothing else is sent.
pub proof fn lemma_order_params_layout(
    symbol: Seq<char>,
    side: OrderSide,
    order_type: OrderType,
    quantity: Seq<char>,
    price: Option<Seq<char>>,
    stop_price: Option<Seq<char>>,
    client_order_id: Option<Seq<char>>,
)
    ensures
        ({
            let ps = order_params_view(
                symbol,
                side,
                order_type,
                quantity,
                price,
                stop_price,
                client_order_id,
            );
            let n: int = if price is Some { 6 } else { 4 };
            &&& ps.len() == n + (if stop_price is Some { 1int } else { 0 }) + (
            if client_order_id is Some {
                1int
            } else {
                0
            })
            &&& ps[0] == ("symbol"@, symbol)
            &&& ps[1] == ("side"@, side_name(side))
            &&& ps[2] == ("type"@, order_type_name(order_type))
            &&& ps[3] == ("quantity"@, quantity)
            &&& price matches Some(p) ==> ps[4] == ("price"@, p) && ps[5] == ("timeInForce"@, "GTC"@)
            &&& stop_price matches Some(p) ==> ps[n] == ("stopPrice"@, p)
            &&& client_order_id matches Some(id) ==> ps[ps.len() - 1] == ("newClientOrderId"@, id)
        }),
{
}

proof fn lemma_joined_starts_with_first(ps: Seq<ParamText>)
    requires
        ps.len() > 0,
    ensures
        joined_params(ps).len() >= param_text(ps[0]).len(),
        joined_params(ps).subrange(0, param_text(ps[0]).len() as int) == param_text(ps[0]),
    decreases ps.len(),
{
    if ps.len() > 1 {
        let t = ps.drop_last();
        lemma_joined_starts_with_first(t);
        assert(t[0] == ps[0]);
        let k = param_text(ps[0]).len() as int;
        assert(joined_params(ps) == joined_params(t) + "&"@ + param_text(ps.last()));
        assert(joined_params(ps).subrange(0, k) =~= joined_params(t).subrange(0, k));
    }
}

proof fn lemma_joined_push(ps: Seq<ParamText>, p: ParamText)
    ensures
        joined_params(ps.push(p)) == if ps.len() == 0 {
            param_text(p)
        } else {
            joined_params(ps) + "&"@ + param_text(p)
        },
{
    assert(ps.push(p).drop_last() =~= ps);
    assert(ps.push(p).last() == p);
}

/// The signed query of a request. Without parameters the signed text is
/// exactly `timestamp=<ts>`. Parameters without a timestamp come first,
/// joined by `&`, and `&timestamp=<ts>` follows them; a timestamp already
/// among them takes the new value in its place. The signed text begins
/// with the first parameter (so never with `&` where the names do not),
/// and the query ends in `&signature=` and the signature of that text:
/// the lowercase hexadecimal HMAC-SHA256 tag of its UTF-8 bytes under the
/// secret's UTF-8 bytes.
pub proof fn lemma_signed_query_layout(secret: Seq<char>, ps: Seq<ParamText>, timestamp: nat)
    ensures
        ({
            let q = "timestamp="@ + decimal(timestamp);
            signed_query_text(secret, Seq::empty(), timestamp) == q + "&signature="@ + signature_of(
                secret,
                q,
            )
        }),
        ps.len() > 0 && (forall|j: int| 0 <= j < ps.len() ==> ps[j].0 != "timestamp"@) ==> ({
            let q = joined_params(ps) + "&timestamp="@ + decimal(timestamp);
            signed_query_text(secret, ps, timestamp) == q + "&signature="@ + signature_of(secret, q)
        }),
        forall|i: int|
            #![trigger ps[i]]
            0 <= i < ps.len() && ps[i].0 == "timestamp"@ && (forall|j: int|
                0 <= j < i ==> ps[j].0 != "timestamp"@) ==> ({
                let q = joined_params(ps.update(i, ("timestamp"@, decimal(timestamp))));
                signed_query_text(secret, ps, timestamp) == q + "&signature="@ + signature_of(secret, q)
            }),
        ps.len() > 0 && ps[0].0.len() > 0 ==> signed_query_text(secret, ps, timestamp)[0]
            == ps[0].0[0],
        ps.len() == 0 ==> signed_query_text(secret, ps, timestamp)[0] == 't',
        forall|q: Seq<char>|
            #[trigger] signature_of(secret, q) == hex_lower(
                hmac_sha256(encode_utf8(secret), encode_utf8(q)),
            ),
{
    let d = decimal(timestamp);
    let e = Seq::<ParamText>::empty();
    reveal_strlit("timestamp");
    reveal_strlit("=");
    reveal_strlit("&");
    reveal_strlit("&timestamp=");
    reveal_strlit("timestamp=");
    lemma_upsert_absent(e, "timestamp"@, d);
    lemma_joined_push(e, ("timestamp"@, d));
    assert(param_text(("timestamp"@, d)) =~= "timestamp="@ + d);
    if ps.len() > 0 && (forall|j: int| 0 <= j < ps.len() ==> ps[j].0 != "timestamp"@) {
        lemma_upsert_absent(ps, "timestamp"@, d);
        lemma_joined_push(ps, ("timestamp"@, d));
        assert(joined_params(ps) + "&"@ + ("timestamp="@ + d) =~= joined_params(ps) + "&timestamp="@
            + d);
    }
    assert forall|i: int|
        #![trigger ps[i]]
        0 <= i < ps.len() && ps[i].0 == "timestamp"@ && (forall|j: int|
            0 <= j < i ==> ps[j].0 != "timestamp"@) implies ({
        let q = joined_params(ps.update(i, ("timestamp"@, d)));
        signed_query_text(secret, ps, timestamp) == q + "&signature="@ + signature_of(secret, q)
    }) by {
        lemma_upsert_at(ps, "timestamp"@, d, i);
    }
    if ps.len() > 0 {
        let u = upsert_param(ps, "timestamp"@, d);
        assert(u.len() > 0 && u[0].0 == ps[0].0) by {
            if ps[0].0 == "timestamp"@ {
                lemma_upsert_at(ps, "timestamp"@, d, 0);
            }
        }
        lemma_joined_starts_with_first(u);
        let q = joined_params(u);
        if ps[0].0.len() > 0 {
            assert(q[0] == q.subrange(0, param_text(u[0]).len() as int)[0]);
            assert(param_text(u[0])[0] == u[0].0[0]);
        }
        assert(signed_query_text(secret, ps, timestamp)[0] == q[0]);
    }
}

/// Hexadecimal text has two digits per byte.
pub proof fn lemma_hex_length(bytes: Seq<u8>)
    ensures
        hex_lower(bytes).len() == 2 * bytes.len(),
    decreases bytes.len(),
{
    if bytes.len() > 0 {
        lemma_hex_length(bytes.drop_first());
    }
}

/// A request signature is the 64 hexadecimal digits of a 32-byte tag.
pub proof fn lemma_signature_length(secret: Seq<char>, query: Seq<char>)
    requires
        hmac_sha256(encode_utf8(secret), encode_utf8(query)).len() == 32,
    ensures
        signature_of(secret, query).len() == 64,
{
    lemma_hex_length(hmac_sha256(encode_utf8(secret), encode_utf8(query)));
}

} // verus!
