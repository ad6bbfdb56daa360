//! Requests on a futures account: leverage and margin settings, orders,
//! balances and positions. Every one of them is signed.
use vstd::prelude::*;

use crate::rest::{
    bare_request, bool_string, bool_text, number_text, opt_param, opt_view, params_view,
    push_opt_param, push_param, symbol_request, Endpoint, Method, Request,
};
use crate::text::{decimal, decimal_text, joined};

verus! {

/// A futures account; `recv_window` is the receive window that its signed
/// requests carry.
#[derive(Debug, Clone)]
pub struct FuturesAccount {
    pub recv_window: u64,
}

/// How long an order stays active.
#[derive(Debug, Clone, Copy, PartialEq, Eq, Structural)]
pub enum TimeInForce {
    GTC,
    IOC,
    FOK,
}

/// The margin mode of a symbol.
#[derive(Debug, Clone, Copy, PartialEq, Eq, Structural)]
pub enum MarginType {
    Isolated,
    Cross,
}

/// The type of an order.
#[derive(Debug, Clone, Copy, PartialEq, Eq, Structural)]
pub enum OrderType {
    Limit,
    Market,
    StopLossLimit,
    Stop,
    TakeProfit,
    StopMarket,
    TakeProfitMarket,
    TrailingStopMarket,
}

/// The side of an order.
#[derive(Debug, Clone, Copy, PartialEq, Eq, Structural)]
pub enum OrderSide {
    Buy,
    Sell,
}

/// The wire text of a time in force.
pub open spec fn time_in_force_text(t: TimeInForce) -> Seq<char> {
    match t {
        TimeInForce::GTC => "GTC"@,
        TimeInForce::IOC => "IOC"@,
        TimeInForce::FOK => "FOK"@,
    }
}

/// The wire text of a margin type.
pub open spec fn margin_type_text(m: MarginType) -> Seq<char> {
    match m {
        MarginType::Isolated => "ISOLATED"@,
        MarginType::Cross => "CROSSED"@,
    }
}

/// The wire text of an order type.
pub open spec fn order_type_text(t: OrderType) -> Seq<char> {
    match t {
        OrderType::Limit => "LIMIT"@,
        OrderType::Market => "MARKET"@,
        OrderType::StopLossLimit => "STOP_LOSS_LIMIT"@,
        OrderType::Stop => "STOP"@,
        OrderType::TakeProfit => "TAKE_PROFIT"@,
        OrderType::StopMarket => "STOP_MARKET"@,
        OrderType::TakeProfitMarket => "TAKE_PROFIT_MARKET"@,
        OrderType::TrailingStopMarket => "TRAILING_STOP_MARKET"@,
    }
}

/// The wire text of an order side.
pub open spec fn order_side_text(s: OrderSide) -> Seq<char> {
    match s {
        OrderSide::Buy => "BUY"@,
        OrderSide::Sell => "SELL"@,
    }
}

impl TimeInForce {
    /// The wire text.
    pub fn to_text(self) -> (r: String)
        ensures
            r@ == time_in_force_text(self),
    {
        match self {
            TimeInForce::GTC => String::from_str("GTC"),
            TimeInForce::IOC => String::from_str("IOC"),
            TimeInForce::FOK => String::from_str("FOK"),
        }
    }
}

impl MarginType {
    /// The wire text.
    pub fn to_text(self) -> (r: String)
        ensures
            r@ == margin_type_text(self),
    {
        match self {
            MarginType::Isolated => String::from_str("ISOLATED"),
            MarginType::Cross => String::from_str("CROSSED"),
        }
    }
}

impl OrderType {
    /// The wire text.
    pub fn to_text(self) -> (r: String)
        ensures
            r@ == order_type_text(self),
    {
        match self {
            OrderType::Limit => String::from_str("LIMIT"),
            OrderType::Market => String::from_str("MARKET"),
            OrderType::StopLossLimit => String::from_str("STOP_LOSS_LIMIT"),
            OrderType::Stop => String::from_str("STOP"),
            OrderType::TakeProfit => String::from_str("TAKE_PROFIT"),
            OrderType::StopMarket => String::from_str("STOP_MARKET"),
            OrderType::TakeProfitMarket => String::from_str("TAKE_PROFIT_MARKET"),
            OrderType::TrailingStopMarket => String::from_str("TRAILING_STOP_MARKET"),
        }
    }
}

impl OrderSide {
    /// The wire text.
    pub fn to_text(self) -> (r: String)
        ensures
            r@ == order_side_text(self),
    {
        match self {
            OrderSide::Buy => String::from_str("BUY"),
            OrderSide::Sell => String::from_str("SELL"),
        }
    }
}

/// The fields of an order to place. Quantities and prices are decimal
/// texts, as the exchange reads them.
pub struct OrderRequest {
    pub activation_price: Option<String>,
    pub callback_rate: Option<String>,
    pub symbol: String,
    pub qty: Option<String>,
    pub price: Option<String>,
    pub stop_price: Option<String>,
    pub order_side: OrderSide,
    pub order_type: OrderType,
    pub time_in_force: Option<TimeInForce>,
    pub close_position: bool,
    pub reduce_only: Option<bool>,
}

/// The parameters of an order from its fields' texts, in ascending order
/// of key: the optional ones only where they are set.
pub open spec fn order_param_seq(
    symbol: Seq<char>,
    side: OrderSide,
    kind: OrderType,
    qty: Option<Seq<char>>,
    price: Option<Seq<char>>,
    stop_price: Option<Seq<char>>,
    time_in_force: Option<TimeInForce>,
    close_position: bool,
    reduce_only: Option<bool>,
    activation_price: Option<Seq<char>>,
    callback_rate: Option<Seq<char>>,
) -> Seq<(Seq<char>, Seq<char>)> {
    opt_param("activationPrice"@, activation_price) + opt_param("callbackRate"@, callback_rate)
        + seq![("closePosition"@, bool_text(close_position))] + opt_param("price"@, price)
        + opt_param("quantity"@, qty) + opt_param(
        "reduceOnly"@,
        match reduce_only {
            Some(b) => Some(bool_text(b)),
            None => None,
        },
    ) + seq![("side"@, order_side_text(side))] + opt_param("stopPrice"@, stop_price) + seq![
        ("symbol"@, symbol),
    ] + opt_param(
        "timeInForce"@,
        match time_in_force {
            Some(t) => Some(time_in_force_text(t)),
            None => None,
        },
    ) + seq![("type"@, order_type_text(kind))]
}

/// The parameters of an order.
pub open spec fn order_params(o: OrderRequest) -> Seq<(Seq<char>, Seq<char>)> {
    order_param_seq(
        o.symbol@,
        o.order_side,
        o.order_type,
        opt_view(o.qty),
        opt_view(o.price),
        opt_view(o.stop_price),
        o.time_in_force,
        o.close_position,
        o.reduce_only,
        opt_view(o.activation_price),
        opt_view(o.callback_rate),
    )
}

/// The text of a list of order ids: `[` and `]` around the ids in decimal,
/// separated by `,`.
pub open spec fn id_list_text(ids: Seq<u64>) -> Seq<char> {
    "["@ + joined(ids.map_values(|id: u64| decimal(id as nat)), ","@) + "]"@
}

fn id_list(ids: &[u64]) -> (r: String)
    ensures
        r@ == id_list_text(ids@),
{
    let ghost texts = ids@.map_values(|id: u64| decimal(id as nat));
    let mut acc = String::new();
    let mut i: usize = 0;
    while i < ids.len()
        invariant
            i <= ids@.len(),
            texts == ids@.map_values(|id: u64| decimal(id as nat)),
            acc@ == joined(texts.take(i as int), ","@),
        decreases ids@.len() - i,
    {
        if i > 0 {
            acc.append(",");
        }
        let d = decimal_text(ids[i]);
        acc.append(d.as_str());
        proof {
            assert(texts.take(i + 1).drop_last() =~= texts.take(i as int));
            if i == 0 {
                assert(acc@ =~= texts.take(1)[0]);
            }
        }
        i = i + 1;
    }
    assert(texts.take(ids@.len() as int) =~= texts);
    String::from_str("[").concat(acc.as_str()).concat("]")
}

/// An optional symbol as the parameter list it gives.
pub open spec fn opt_symbol(symbol: Option<String>) -> Seq<(Seq<char>, Seq<char>)> {
    opt_param("symbol"@, opt_view(symbol))
}

impl FuturesAccount {
    /// Sets the leverage of a symbol.
    pub fn set_leverage(&self, symbol: &str, leverage: u64) -> (r: Request)
        ensures
            r.method == Method::Post,
            r.endpoint == Endpoint::FuturesLeverage,
            params_view(r.params@) == seq![("leverage"@, number_text(leverage)), ("symbol"@, symbol@)],
            r.recv_window == Some(self.recv_window),
            r.listen_key is None,
    {
        let mut params: Vec<(String, String)> = Vec::new();
        push_param(&mut params, "leverage", decimal_text(leverage));
        push_param(&mut params, "symbol", String::from_str(symbol));
        assert(params_view(params@) =~= seq![
            ("leverage"@, number_text(leverage)),
            ("symbol"@, symbol@),
        ]);
        Request {
            method: Method::Post,
            endpoint: Endpoint::FuturesLeverage,
            params,
            recv_window: Some(self.recv_window),
            listen_key: None,
        }
    }

    /// Sets the margin mode of a symbol.
    pub fn set_margin_type(&self, symbol: &str, margin_type: MarginType) -> (r: Request)
        ensures
            r.method == Method::Post,
            r.endpoint == Endpoint::FuturesMarginType,
            params_view(r.params@) == seq![
                ("marginType"@, margin_type_text(margin_type)),
                ("symbol"@, symbol@),
            ],
            r.recv_window == Some(self.recv_window),
            r.listen_key is None,
    {
        let mut params: Vec<(String, String)> = Vec::new();
        push_param(&mut params, "marginType", margin_type.to_text());
        push_param(&mut params, "symbol", String::from_str(symbol));
        assert(params_view(params@) =~= seq![
            ("marginType"@, margin_type_text(margin_type)),
            ("symbol"@, symbol@),
        ]);
        Request {
            method: Method::Post,
            endpoint: Endpoint::FuturesMarginType,
            params,
            recv_window: Some(self.recv_window),
            listen_key: None,
        }
    }

    fn optional_symbol_request(&self, method: Method, endpoint: Endpoint, symbol: Option<String>) -> (r: Request)
        ensures
            r.method == method,
            r.endpoint == endpoint,
            params_view(r.params@) == opt_symbol(symbol),
            r.recv_window == Some(self.recv_window),
            r.listen_key is None,
    {
        let mut params: Vec<(String, String)> = Vec::new();
        assert(params_view(params@) =~= Seq::empty());
        push_opt_param(&mut params, "symbol", symbol);
        Request { method, endpoint, params, recv_window: Some(self.recv_window), listen_key: None }
    }

    /// The open orders of one symbol, or of all symbols.
    pub fn get_all_open_orders(&self, symbol: Option<String>) -> (r: Request)
        ensures
            r.method == Method::Get,
            r.endpoint == Endpoint::FuturesOpenOrders,
            params_view(r.params@) == opt_symbol(symbol),
            r.recv_window == Some(self.recv_window),
            r.listen_key is None,
    {
        self.optional_symbol_request(Method::Get, Endpoint::FuturesOpenOrders, symbol)
    }

    /// Cancels the open orders of one symbol, or of all symbols.
    pub fn cancel_all_open_orders(&self, symbol: Option<String>) -> (r: Request)
        ensures
            r.method == Method::Delete,
            r.endpoint == Endpoint::FuturesCancelAllOpenOrders,
            params_view(r.params@) == opt_symbol(symbol),
            r.recv_window == Some(self.recv_window),
            r.listen_key is None,
    {
        self.optional_symbol_request(Method::Delete, Endpoint::FuturesCancelAllOpenOrders, symbol)
    }

    /// The balances of the account.
    pub fn get_balance(&self) -> (r: Request)
        ensures
            r.method == Method::Get,
            r.endpoint == Endpoint::FuturesBalance,
            r.params@.len() == 0,
            r.recv_window == Some(self.recv_window),
            r.listen_key is None,
    {
        bare_request(Method::Get, Endpoint::FuturesBalance, Some(self.recv_window))
    }

    /// The positions of one symbol, or of all symbols.
    pub fn get_positions(&self, symbol: Option<String>) -> (r: Request)
        ensures
            r.method == Method::Get,
            r.endpoint == Endpoint::FuturesPositionsInformation,
            params_view(r.params@) == opt_symbol(symbol),
            r.recv_window == Some(self.recv_window),
            r.listen_key is None,
    {
        self.optional_symbol_request(Method::Get, Endpoint::FuturesPositionsInformation, symbol)
    }

    /// Cancels one order.
    pub fn cancel_order(&self, symbol: &str, order_id: u64) -> (r: Request)
        ensures
            r.method == Method::Delete,
            r.endpoint == Endpoint::FuturesOrder,
            params_view(r.params@) == seq![("orderId"@, number_text(order_id)), ("symbol"@, symbol@)],
            r.recv_window == Some(self.recv_window),
            r.listen_key is None,
    {
        let mut params: Vec<(String, String)> = Vec::new();
        push_param(&mut params, "orderId", decimal_text(order_id));
        push_param(&mut params, "symbol", String::from_str(symbol));
        assert(params_view(params@) =~= seq![
            ("orderId"@, number_text(order_id)),
            ("symbol"@, symbol@),
        ]);
        Request {
            method: Method::Delete,
            endpoint: Endpoint::FuturesOrder,
            params,
            recv_window: Some(self.recv_window),
            listen_key: None,
        }
    }

    /// Cancels several orders of a symbol at once.
    pub fn cancel_orders(&self, symbol: &str, order_ids: &[u64]) -> (r: Request)
        ensures
            r.method == Method::Delete,
            r.endpoint == Endpoint::FuturesBatchOrders,
            params_view(r.params@) == seq![
                ("orderIdList"@, id_list_text(order_ids@)),
                ("symbol"@, symbol@),
            ],
            r.recv_window == Some(self.recv_window),
            r.listen_key is None,
    {
        let mut params: Vec<(String, String)> = Vec::new();
        push_param(&mut params, "orderIdList", id_list(order_ids));
        push_param(&mut params, "symbol", String::from_str(symbol));
        assert(params_view(params@) =~= seq![
            ("orderIdList"@, id_list_text(order_ids@)),
            ("symbol"@, symbol@),
        ]);
        Request {
            method: Method::Delete,
            endpoint: Endpoint::FuturesBatchOrders,
            params,
            recv_window: Some(self.recv_window),
            listen_key: None,
        }
    }

    /// The parameters of an order.
    pub fn build_order(&self, order: OrderRequest) -> (r: Vec<(String, String)>)
        ensures
            params_view(r@) == order_params(order),
    {
        let ghost o = order;
        let mut params: Vec<(String, String)> = Vec::new();
        assert(params_view(params@) =~= Seq::empty());
        push_opt_param(&mut params, "activationPrice", order.activation_price);
        push_opt_param(&mut params, "callbackRate", order.callback_rate);
        push_param(&mut params, "closePosition", bool_string(order.close_position));
        push_opt_param(&mut params, "price", order.price);
        push_opt_param(&mut params, "quantity", order.qty);
        let reduce_only = match order.reduce_only {
            Some(b) => Some(bool_string(b)),
            None => None,
        };
        push_opt_param(&mut params, "reduceOnly", reduce_only);
        push_param(&mut params, "side", order.order_side.to_text());
        push_opt_param(&mut params, "stopPrice", order.stop_price);
        push_param(&mut params, "symbol", order.symbol);
        let time_in_force = match order.time_in_force {
            Some(t) => Some(t.to_text()),
            None => None,
        };
        push_opt_param(&mut params, "timeInForce", time_in_force);
        push_param(&mut params, "type", order.order_type.to_text());
        assert(params_view(params@) =~= order_params(o));
        params
    }

    /// Places a market buy order.
    pub fn market_buy_order(&self, symbol: &str, qty: &str, reduce_only: bool) -> (r: Request)
        ensures
            r.method == Method::Post,
            r.endpoint == Endpoint::FuturesOrder,
            params_view(r.params@) == order_param_seq(
                symbol@,
                OrderSide::Buy,
                OrderType::Market,
                Some(qty@),
                None,
                None,
                None,
                false,
                Some(reduce_only),
                None,
                None,
            ),
            r.recv_window == Some(self.recv_window),
            r.listen_key is None,
    {
        self.place(
            OrderRequest {
                activation_price: None,
                callback_rate: None,
                symbol: String::from_str(symbol),
                qty: Some(String::from_str(qty)),
                price: None,
                stop_price: None,
                order_side: OrderSide::Buy,
                order_type: OrderType::Market,
                time_in_force: None,
                close_position: false,
                reduce_only: Some(reduce_only),
            },
        )
    }

    /// Places a market sell order.
    pub fn market_sell_order(&self, symbol: &str, qty: &str, reduce_only: bool) -> (r: Request)
        ensures
            r.method == Method::Post,
            r.endpoint == Endpoint::FuturesOrder,
            params_view(r.params@) == order_param_seq(
                symbol@,
                OrderSide::Sell,
                OrderType::Market,
                Some(qty@),
                None,
                None,
                None,
                false,
                Some(reduce_only),
                None,
                None,
            ),
            r.recv_window == Some(self.recv_window),
            r.listen_key is None,
    {
        self.place(
            OrderRequest {
                activation_price: None,
                callback_rate: None,
                symbol: String::from_str(symbol),
                qty: Some(String::from_str(qty)),
                price: None,
                stop_price: None,
                order_side: OrderSide::Sell,
                order_type: OrderType::Market,
                time_in_force: None,
                close_position: false,
                reduce_only: Some(reduce_only),
            },
        )
    }

    /// Places a take-profit buy order.
    pub fn take_profit_buy_order(&self, symbol: &str, qty: &str, price: &str, stop_price: &str, reduce_only: bool) -> (r: Request)
        ensures
            r.method == Method::Post,
            r.endpoint == Endpoint::FuturesOrder,
            params_view(r.params@) == order_param_seq(
                symbol@,
                OrderSide::Buy,
                OrderType::TakeProfit,
                Some(qty@),
                Some(price@),
                Some(stop_price@),
                None,
                false,
                Some(reduce_only),
                None,
                None,
            ),
            r.recv_window == Some(self.recv_window),
            r.listen_key is None,
    {
        self.place(
            OrderRequest {
                activation_price: None,
                callback_rate: None,
                symbol: String::from_str(symbol),
                qty: Some(String::from_str(qty)),
                price: Some(String::from_str(price)),
                stop_price: Some(String::from_str(stop_price)),
                order_side: OrderSide::Buy,
                order_type: OrderType::TakeProfit,
                time_in_force: None,
                close_position: false,
                reduce_only: Some(reduce_only),
            },
        )
    }

    /// Places a take-profit sell order.
    pub fn take_profit_sell_order(&self, symbol: &str, qty: &str, price: &str, stop_price: &str, reduce_only: bool) -> (r: Request)
        ensures
            r.method == Method::Post,
            r.endpoint == Endpoint::FuturesOrder,
            params_view(r.params@) == order_param_seq(
                symbol@,
                OrderSide::Sell,
                OrderType::TakeProfit,
                Some(qty@),
                Some(price@),
                Some(stop_price@),
                None,
                false,
                Some(reduce_only),
                None,
                None,
            ),
            r.recv_window == Some(self.recv_window),
            r.listen_key is None,
    {
        self.place(
            OrderRequest {
                activation_price: None,
                callback_rate: None,
                symbol: String::from_str(symbol),
                qty: Some(String::from_str(qty)),
                price: Some(String::from_str(price)),
                stop_price: Some(String::from_str(stop_price)),
                order_side: OrderSide::Sell,
                order_type: OrderType::TakeProfit,
                time_in_force: None,
                close_position: false,
                reduce_only: Some(reduce_only),
            },
        )
    }

    /// Places a stop buy order.
    pub fn stop_buy_order(&self, symbol: &str, qty: &str, price: &str, stop_price: &str) -> (r: Request)
        ensures
            r.method == Method::Post,
            r.endpoint == Endpoint::FuturesOrder,
            params_view(r.params@) == order_param_seq(
                symbol@,
                OrderSide::Buy,
                OrderType::Stop,
                Some(qty@),
                Some(price@),
                Some(stop_price@),
                None,
                false,
                None,
                None,
                None,
            ),
            r.recv_window == Some(self.recv_window),
            r.listen_key is None,
    {
        self.place(
            OrderRequest {
                activation_price: None,
                callback_rate: None,
                symbol: String::from_str(symbol),
                qty: Some(String::from_str(qty)),
                price: Some(String::from_str(price)),
                stop_price: Some(String::from_str(stop_price)),
                order_side: OrderSide::Buy,
                order_type: OrderType::Stop,
                time_in_force: None,
                close_position: false,
                reduce_only: None,
            },
        )
    }

    /// Places a stop sell order.
    pub fn stop_sell_order(&self, symbol: &str, qty: &str, price: &str, stop_price: &str) -> (r: Request)
        ensures
            r.method == Method::Post,
            r.endpoint == Endpoint::FuturesOrder,
            params_view(r.params@) == order_param_seq(
                symbol@,
                OrderSide::Sell,
                OrderType::Stop,
                Some(qty@),
                Some(price@),
                Some(stop_price@),
                None,
                false,
                None,
                None,
                None,
            ),
            r.recv_window == Some(self.recv_window),
            r.listen_key is None,
    {
        self.place(
            OrderRequest {
                activation_price: None,
                callback_rate: None,
                symbol: String::from_str(symbol),
                qty: Some(String::from_str(qty)),
                price: Some(String::from_str(price)),
                stop_price: Some(String::from_str(stop_price)),
                order_side: OrderSide::Sell,
                order_type: OrderType::Stop,
                time_in_force: None,
                close_position: false,
                reduce_only: None,
            },
        )
    }

    /// Places a stop-market buy order; `price` is its stop price.
    pub fn stop_market_buy_order(&self, symbol: &str, qty: &str, price: &str) -> (r: Request)
        ensures
            r.method == Method::Post,
            r.endpoint == Endpoint::FuturesOrder,
            params_view(r.params@) == order_param_seq(
                symbol@,
                OrderSide::Buy,
                OrderType::StopMarket,
                Some(qty@),
                None,
                Some(price@),
                None,
                false,
                None,
                None,
                None,
            ),
            r.recv_window == Some(self.recv_window),
            r.listen_key is None,
    {
        self.place(
            OrderRequest {
                activation_price: None,
                callback_rate: None,
                symbol: String::from_str(symbol),
                qty: Some(String::from_str(qty)),
                price: None,
                stop_price: Some(String::from_str(price)),
                order_side: OrderSide::Buy,
                order_type: OrderType::StopMarket,
                time_in_force: None,
                close_position: false,
                reduce_only: None,
            },
        )
    }

    /// Places a stop-market sell order; `price` is its stop price.
    pub fn stop_market_sell_order(&self, symbol: &str, qty: &str, price: &str) -> (r: Request)
        ensures
            r.method == Method::Post,
            r.endpoint == Endpoint::FuturesOrder,
            params_view(r.params@) == order_param_seq(
                symbol@,
                OrderSide::Sell,
                OrderType::StopMarket,
                Some(qty@),
                None,
                Some(price@),
                None,
                false,
                None,
                None,
                None,
            ),
            r.recv_window == Some(self.recv_window),
            r.listen_key is None,
    {
        self.place(
            OrderRequest {
                activation_price: None,
                callback_rate: None,
                symbol: String::from_str(symbol),
                qty: Some(String::from_str(qty)),
                price: None,
                stop_price: Some(String::from_str(price)),
                order_side: OrderSide::Sell,
                order_type: OrderType::StopMarket,
                time_in_force: None,
                close_position: false,
                reduce_only: None,
            },
        )
    }

    /// Places a trailing-stop-market buy order; `price` is its activation price.
    pub fn trailing_stop_market_buy_order(&self, symbol: &str, qty: &str, price: &str, callback_rate: &str, reduce_only: bool) -> (r: Request)
        ensures
            r.method == Method::Post,
            r.endpoint == Endpoint::FuturesOrder,
            params_view(r.params@) == order_param_seq(
                symbol@,
                OrderSide::Buy,
                OrderType::TrailingStopMarket,
                Some(qty@),
                None,
                None,
                None,
                false,
                Some(reduce_only),
                Some(price@),
                Some(callback_rate@),
            ),
            r.recv_window == Some(self.recv_window),
            r.listen_key is None,
    {
        self.place(
            OrderRequest {
                activation_price: Some(String::from_str(price)),
                callback_rate: Some(String::from_str(callback_rate)),
                symbol: String::from_str(symbol),
                qty: Some(String::from_str(qty)),
                price: None,
                stop_price: None,
                order_side: OrderSide::Buy,
                order_type: OrderType::TrailingStopMarket,
                time_in_force: None,
                close_position: false,
                reduce_only: Some(reduce_only),
            },
        )
    }

    /// Places a trailing-stop-market sell order; `price` is its activation price.
    pub fn trailing_stop_market_sell_order(&self, symbol: &str, qty: &str, price: &str, callback_rate: &str, reduce_only: bool) -> (r: Request)
        ensures
            r.method == Method::Post,
            r.endpoint == Endpoint::FuturesOrder,
            params_view(r.params@) == order_param_seq(
                symbol@,
                OrderSide::Sell,
                OrderType::TrailingStopMarket,
                Some(qty@),
                None,
                None,
                None,
                false,
                Some(reduce_only),
                Some(price@),
                Some(callback_rate@),
            ),
            r.recv_window == Some(self.recv_window),
            r.listen_key is None,
    {
        self.place(
            OrderRequest {
                activation_price: Some(String::from_str(price)),
                callback_rate: Some(String::from_str(callback_rate)),
                symbol: String::from_str(symbol),
                qty: Some(String::from_str(qty)),
                price: None,
                stop_price: None,
                order_side: OrderSide::Sell,
                order_type: OrderType::TrailingStopMarket,
                time_in_force: None,
                close_position: false,
                reduce_only: Some(reduce_only),
            },
        )
    }

    /// Places a stop-market sell order that closes the long position at stop price `price`.
    pub fn stop_loss_long_position_order(&self, symbol: &str, price: &str) -> (r: Request)
        ensures
            r.method == Method::Post,
            r.endpoint == Endpoint::FuturesOrder,
            params_view(r.params@) == order_param_seq(
                symbol@,
                OrderSide::Sell,
                OrderType::StopMarket,
                None,
                None,
                Some(price@),
                None,
                true,
                None,
                None,
                None,
            ),
            r.recv_window == Some(self.recv_window),
            r.listen_key is None,
    {
        self.place(
            OrderRequest {
                activation_price: None,
                callback_rate: None,
                symbol: String::from_str(symbol),
                qty: None,
                price: None,
                stop_price: Some(String::from_str(price)),
                order_side: OrderSide::Sell,
                order_type: OrderType::StopMarket,
                time_in_force: None,
                close_position: true,
                reduce_only: None,
            },
        )
    }

    /// Places a stop-market buy order that closes the short position at stop price `price`.
    pub fn stop_loss_short_position_order(&self, symbol: &str, price: &str) -> (r: Request)
        ensures
            r.method == Method::Post,
            r.endpoint == Endpoint::FuturesOrder,
            params_view(r.params@) == order_param_seq(
                symbol@,
                OrderSide::Buy,
                OrderType::StopMarket,
                None,
                None,
                Some(price@),
                None,
                true,
                None,
                None,
                None,
            ),
            r.recv_window == Some(self.recv_window),
            r.listen_key is None,
    {
        self.place(
            OrderRequest {
                activation_price: None,
                callback_rate: None,
                symbol: String::from_str(symbol),
                qty: None,
                price: None,
                stop_price: Some(String::from_str(price)),
                order_side: OrderSide::Buy,
                order_type: OrderType::StopMarket,
                time_in_force: None,
                close_position: true,
                reduce_only: None,
            },
        )
    }

    /// A signed request that places the order.
    fn place(&self, order: OrderRequest) -> (r: Request)
        ensures
            r.method == Method::Post,
            r.endpoint == Endpoint::FuturesOrder,
            params_view(r.params@) == order_params(order),
            r.recv_window == Some(self.recv_window),
            r.listen_key is None,
    {
        let params = self.build_order(order);
        Request {
            method: Method::Post,
            endpoint: Endpoint::FuturesOrder,
            params,
            recv_window: Some(self.recv_window),
            listen_key: None,
        }
    }
}

} // verus!
