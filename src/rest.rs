//! The shape of a REST request to the exchange: method, endpoint, query
//! parameters and whether it must be signed. Sending it, signing it and
//! decoding the answer belong to the caller's HTTP transport.
use vstd::prelude::*;

use crate::text::decimal;

verus! {

/// The HTTP method of a request.
#[derive(Debug, Clone, Copy, PartialEq, Eq, Structural)]
pub enum Method {
    Get,
    Post,
    Put,
    Delete,
}

/// The endpoints that the library's requests address.
#[derive(Debug, Clone, Copy, PartialEq, Eq, Structural)]
pub enum Endpoint {
    SpotDepth,
    SpotPrice,
    SpotAvgPrice,
    SpotBookTicker,
    SpotTicker24hr,
    SpotKlines,
    SpotUserDataStream,
    FuturesLeverage,
    FuturesMarginType,
    FuturesOpenOrders,
    FuturesCancelAllOpenOrders,
    FuturesBalance,
    FuturesPositionsInformation,
    FuturesOrder,
    FuturesBatchOrders,
}

/// A request to send.
#[derive(Debug, Clone)]
pub struct Request {
    pub method: Method,
    pub endpoint: Endpoint,
    /// Query parameters, in ascending order of key, each key once.
    pub params: Vec<(String, String)>,
    /// For a request that must be signed, the receive window to sign it
    /// with.
    pub recv_window: Option<u64>,
    /// The listen key that a user-data stream request is about.
    pub listen_key: Option<String>,
}

/// Query parameters as pairs of texts.
pub open spec fn params_view(p: Seq<(String, String)>) -> Seq<(Seq<char>, Seq<char>)> {
    p.map_values(|kv: (String, String)| (kv.0@, kv.1@))
}

/// The text of an optional string.
pub open spec fn opt_view(o: Option<String>) -> Option<Seq<char>> {
    match o {
        Some(s) => Some(s@),
        None => None,
    }
}

/// One parameter where the value is there, none where it is not.
pub open spec fn opt_param(key: Seq<char>, value: Option<Seq<char>>) -> Seq<(Seq<char>, Seq<char>)> {
    match value {
        Some(v) => seq![(key, v)],
        None => Seq::empty(),
    }
}

/// The text of a boolean parameter.
pub open spec fn bool_text(b: bool) -> Seq<char> {
    if b {
        "true"@
    } else {
        "false"@
    }
}

/// Appends one parameter.
pub fn push_param(params: &mut Vec<(String, String)>, key: &str, value: String)
    ensures
        params_view(final(params)@) == params_view(old(params)@) + seq![(key@, value@)],
{
    let ghost before = params@;
    params.push((String::from_str(key), value));
    assert(params_view(params@) =~= params_view(before) + seq![(key@, value@)]);
}

/// Appends a parameter where the value is there.
pub fn push_opt_param(params: &mut Vec<(String, String)>, key: &str, value: Option<String>)
    ensures
        params_view(final(params)@) == params_view(old(params)@) + opt_param(key@, opt_view(value)),
{
    match value {
        Some(v) => push_param(params, key, v),
        None => {
            assert(params_view(params@) =~= params_view(params@) + opt_param(key@, None));
        },
    }
}

/// The text of a boolean, `true` or `false`.
pub fn bool_string(b: bool) -> (r: String)
    ensures
        r@ == bool_text(b),
{
    if b {
        String::from_str("true")
    } else {
        String::from_str("false")
    }
}

/// A request without parameters.
pub fn bare_request(method: Method, endpoint: Endpoint, recv_window: Option<u64>) -> (r: Request)
    ensures
        r.method == method,
        r.endpoint == endpoint,
        r.params@.len() == 0,
        r.recv_window == recv_window,
        r.listen_key is None,
{
    Request { method, endpoint, params: Vec::new(), recv_window, listen_key: None }
}

/// A request whose only parameter is the symbol.
pub fn symbol_request(method: Method, endpoint: Endpoint, symbol: &str, recv_window: Option<u64>) -> (r: Request)
    ensures
        r.method == method,
        r.endpoint == endpoint,
        params_view(r.params@) == seq![("symbol"@, symbol@)],
        r.recv_window == recv_window,
        r.listen_key is None,
{
    let mut params: Vec<(String, String)> = Vec::new();
    push_param(&mut params, "symbol", String::from_str(symbol));
    assert(params_view(Seq::<(String, String)>::empty()) =~= Seq::empty());
    Request { method, endpoint, params, recv_window, listen_key: None }
}

/// The decimal text of a parameter's integer value.
pub open spec fn number_text(n: u64) -> Seq<char> {
    decimal(n as nat)
}

} // verus!
