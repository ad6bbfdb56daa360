//! Requests for spot market data: order books, prices, tickers and klines.
use vstd::prelude::*;

use crate::rest::{
    bare_request, number_text, opt_param, opt_view, params_view, push_opt_param, push_param,
    symbol_request, Endpoint, Method, Request,
};
use crate::text::decimal_text;

verus! {

/// Spot market data. Its requests are public: none is signed.
#[derive(Debug, Clone)]
pub struct Market {
    pub recv_window: u64,
}

/// The decimal text of an optional number.
pub open spec fn opt_number(n: Option<u64>) -> Option<Seq<char>> {
    match n {
        Some(v) => Some(number_text(v)),
        None => None,
    }
}

fn opt_decimal(n: Option<u64>) -> (r: Option<String>)
    ensures
        opt_view(r) == opt_number(n),
{
    match n {
        Some(v) => Some(decimal_text(v)),
        None => None,
    }
}

impl Market {
    /// The order book of a symbol at the default depth.
    pub fn get_depth(&self, symbol: &str) -> (r: Request)
        ensures
            r.method == Method::Get,
            r.endpoint == Endpoint::SpotDepth,
            params_view(r.params@) == seq![("symbol"@, symbol@)],
            r.recv_window is None,
            r.listen_key is None,
    {
        symbol_request(Method::Get, Endpoint::SpotDepth, symbol, None)
    }

    /// The order book of a symbol at a chosen depth.
    pub fn get_custom_depth(&self, symbol: &str, depth: u64) -> (r: Request)
        ensures
            r.method == Method::Get,
            r.endpoint == Endpoint::SpotDepth,
            params_view(r.params@) == seq![("limit"@, number_text(depth)), ("symbol"@, symbol@)],
            r.recv_window is None,
            r.listen_key is None,
    {
        let mut params: Vec<(String, String)> = Vec::new();
        push_param(&mut params, "limit", decimal_text(depth));
        push_param(&mut params, "symbol", String::from_str(symbol));
        assert(params_view(params@) =~= seq![("limit"@, number_text(depth)), ("symbol"@, symbol@)]);
        Request {
            method: Method::Get,
            endpoint: Endpoint::SpotDepth,
            params,
            recv_window: None,
            listen_key: None,
        }
    }

    /// The latest price of every symbol.
    pub fn get_all_prices(&self) -> (r: Request)
        ensures
            r.method == Method::Get,
            r.endpoint == Endpoint::SpotPrice,
            r.params@.len() == 0,
            r.recv_window is None,
            r.listen_key is None,
    {
        bare_request(Method::Get, Endpoint::SpotPrice, None)
    }

    /// The latest price of one symbol.
    pub fn get_price(&self, symbol: &str) -> (r: Request)
        ensures
            r.method == Method::Get,
            r.endpoint == Endpoint::SpotPrice,
            params_view(r.params@) == seq![("symbol"@, symbol@)],
            r.recv_window is None,
            r.listen_key is None,
    {
        symbol_request(Method::Get, Endpoint::SpotPrice, symbol, None)
    }

    /// The average price of one symbol.
    pub fn get_average_price(&self, symbol: &str) -> (r: Request)
        ensures
            r.method == Method::Get,
            r.endpoint == Endpoint::SpotAvgPrice,
            params_view(r.params@) == seq![("symbol"@, symbol@)],
            r.recv_window is None,
            r.listen_key is None,
    {
        symbol_request(Method::Get, Endpoint::SpotAvgPrice, symbol, None)
    }

    /// The best price and quantity on the order book of every symbol.
    pub fn get_all_book_tickers(&self) -> (r: Request)
        ensures
            r.method == Method::Get,
            r.endpoint == Endpoint::SpotBookTicker,
            r.params@.len() == 0,
            r.recv_window is None,
            r.listen_key is None,
    {
        bare_request(Method::Get, Endpoint::SpotBookTicker, None)
    }

    /// The best price and quantity on the order book of one symbol.
    pub fn get_book_ticker(&self, symbol: &str) -> (r: Request)
        ensures
            r.method == Method::Get,
            r.endpoint == Endpoint::SpotBookTicker,
            params_view(r.params@) == seq![("symbol"@, symbol@)],
            r.recv_window is None,
            r.listen_key is None,
    {
        symbol_request(Method::Get, Endpoint::SpotBookTicker, symbol, None)
    }

    /// The price change statistics of one symbol over the last day.
    pub fn get_24h_price_stats(&self, symbol: &str) -> (r: Request)
        ensures
            r.method == Method::Get,
            r.endpoint == Endpoint::SpotTicker24hr,
            params_view(r.params@) == seq![("symbol"@, symbol@)],
            r.recv_window is None,
            r.listen_key is None,
    {
        symbol_request(Method::Get, Endpoint::SpotTicker24hr, symbol, None)
    }

    /// The price change statistics of every symbol over the last day.
    pub fn get_all_24h_price_stats(&self) -> (r: Request)
        ensures
            r.method == Method::Get,
            r.endpoint == Endpoint::SpotTicker24hr,
            r.params@.len() == 0,
            r.recv_window is None,
            r.listen_key is None,
    {
        bare_request(Method::Get, Endpoint::SpotTicker24hr, None)
    }

    /// Up to `limit` klines of a symbol at an interval (`1m`, `5m`, ...),
    /// optionally between two times.
    pub fn get_klines(
        &self,
        symbol: &str,
        interval: &str,
        limit: Option<u16>,
        start_time: Option<u64>,
        end_time: Option<u64>,
    ) -> (r: Request)
        ensures
            r.method == Method::Get,
            r.endpoint == Endpoint::SpotKlines,
            params_view(r.params@) == opt_param("endTime"@, opt_number(end_time)) + seq![
                ("interval"@, interval@),
            ] + opt_param(
                "limit"@,
                opt_number(
                    match limit {
                        Some(l) => Some(l as u64),
                        None => None,
                    },
                ),
            ) + opt_param("startTime"@, opt_number(start_time)) + seq![("symbol"@, symbol@)],
            r.recv_window is None,
            r.listen_key is None,
    {
        let wide_limit: Option<u64> = match limit {
            Some(l) => Some(l as u64),
            None => None,
        };
        let mut params: Vec<(String, String)> = Vec::new();
        assert(params_view(params@) =~= Seq::empty());
        push_opt_param(&mut params, "endTime", opt_decimal(end_time));
        push_param(&mut params, "interval", String::from_str(interval));
        push_opt_param(&mut params, "limit", opt_decimal(wide_limit));
        push_opt_param(&mut params, "startTime", opt_decimal(start_time));
        push_param(&mut params, "symbol", String::from_str(symbol));
        Request {
            method: Method::Get,
            endpoint: Endpoint::SpotKlines,
            params,
            recv_window: None,
            listen_key: None,
        }
    }
}

} // verus!
