//! Orders: their enumerations, the request builder and the placed order.
use vstd::prelude::*;
use vstd::string::StringExecFns;
use crate::json::{field, read_string, required, string_of, JsonValue};
use crate::wire::{fields_view, named, text, WireValue, WireView};

verus! {

/// Type of order to place.
#[derive(Debug, Clone, Copy, PartialEq, Eq, Hash, Structural)]
pub enum OrderType {
    /// Limit order: buy or sell at `limit_price` or better. Sent as `1`.
    Limit,
    /// Market order: buy or sell at the current market price. Sent as `2`.
    Market,
    /// Stop order (SL-M): a market order once `stop_price` is reached. Sent as `3`.
    Stop,
    /// Stop-limit order (SL-L): a limit order once `stop_price` is reached. Sent as `4`.
    StopLimit,
}

/// Order side.
#[derive(Debug, Clone, Copy, PartialEq, Eq, Hash, Structural)]
pub enum Side {
    /// Buy, sent as `1`.
    Buy,
    /// Sell, sent as `-1`.
    Sell,
}

/// Product type of an order: how the position is held and margined.
#[derive(Debug, Clone, Copy, PartialEq, Eq, Hash, Structural)]
pub enum ProductType {
    /// Cash and carry: delivery-based equity trading.
    Cnc,
    /// Positions closed within the same trading day.
    Intraday,
    /// Margin trading for derivative segments.
    Margin,
    /// Cover order: intraday, with a mandatory stop-loss.
    Co,
    /// Bracket order: with both stop-loss and take-profit.
    Bo,
    /// Margin Trading Facility: broker-funded leveraged delivery.
    Mtf,
}

/// How long an order remains active.
#[derive(Debug, Clone, Copy, PartialEq, Eq, Hash, Structural)]
pub enum Validity {
    /// Immediate or cancel.
    Ioc,
    /// Valid for the entire trading day.
    Day,
}

/// The number that stands for an order type on the wire.
pub open spec fn order_type_code(t: OrderType) -> int {
    match t {
        OrderType::Limit => 1,
        OrderType::Market => 2,
        OrderType::Stop => 3,
        OrderType::StopLimit => 4,
    }
}

/// The number that stands for a side on the wire.
pub open spec fn side_code(s: Side) -> int {
    match s {
        Side::Buy => 1,
        Side::Sell => -1,
    }
}

/// The text that stands for a product type on the wire.
pub open spec fn product_type_text(p: ProductType) -> Seq<char> {
    match p {
        ProductType::Cnc => "CNC"@,
        ProductType::Intraday => "INTRADAY"@,
        ProductType::Margin => "MARGIN"@,
        ProductType::Co => "CO"@,
        ProductType::Bo => "BO"@,
        ProductType::Mtf => "MTF"@,
    }
}

/// The text that stands for a validity on the wire.
pub open spec fn validity_text(v: Validity) -> Seq<char> {
    match v {
        Validity::Ioc => "IOC"@,
        Validity::Day => "DAY"@,
    }
}

impl OrderType {
    /// The number sent for this order type.
    pub fn code(&self) -> (r: i64)
        ensures
            r == order_type_code(*self),
    {
        match self {
            OrderType::Limit => 1,
            OrderType::Market => 2,
            OrderType::Stop => 3,
            OrderType::StopLimit => 4,
        }
    }
}

impl Side {
    /// The number sent for this side.
    pub fn code(&self) -> (r: i64)
        ensures
            r == side_code(*self),
    {
        match self {
            Side::Buy => 1,
            Side::Sell => -1,
        }
    }
}

impl ProductType {
    /// The text sent for this product type.
    pub fn as_str(&self) -> (r: &'static str)
        ensures
            r@ == product_type_text(*self),
    {
        match self {
            ProductType::Cnc => "CNC",
            ProductType::Intraday => "INTRADAY",
            ProductType::Margin => "MARGIN",
            ProductType::Co => "CO",
            ProductType::Bo => "BO",
            ProductType::Mtf => "MTF",
        }
    }
}

impl Validity {
    /// The text sent for this validity.
    pub fn as_str(&self) -> (r: &'static str)
        ensures
            r@ == validity_text(*self),
    {
        match self {
            Validity::Ioc => "IOC",
            Validity::Day => "DAY",
        }
    }
}

/// A request to place an order, built with [`OrderBuilder`].
///
/// Prices are carried as the bit patterns of `f64` values (`f64::to_bits`).
#[derive(Debug, Clone)]
pub struct OrderRequest {
    pub symbol: String,
    pub qty: u32,
    pub order_type: OrderType,
    pub side: Side,
    pub product_type: ProductType,
    pub limit_price: u64,
    pub stop_price: u64,
    pub disclosed_qty: u32,
    pub validity: Validity,
    pub offline_order: bool,
    pub stop_loss: u64,
    pub take_profit: u64,
    pub order_tag: Option<String>,
    pub is_slice_order: bool,
}

/// Builder of an [`OrderRequest`].
///
/// The required fields are given to [`OrderBuilder::new`]; the others start
/// at their defaults (prices `0.0`, disclosed quantity `0`, no after-market
/// flag, no tag, no slicing) and are set one at a time.
#[derive(Debug, Clone)]
pub struct OrderBuilder {
    pub request: OrderRequest,
}

/// The bit pattern of the `f64` value `0.0`.
pub const ZERO_PRICE: u64 = 0;

/// `o` holds the given required fields, and every other field at its default.
pub open spec fn is_fresh_order(
    o: OrderRequest,
    symbol: Seq<char>,
    qty: u32,
    order_type: OrderType,
    side: Side,
    product_type: ProductType,
    validity: Validity,
) -> bool {
    &&& o.symbol@ == symbol
    &&& o.qty == qty
    &&& o.order_type == order_type
    &&& o.side == side
    &&& o.product_type == product_type
    &&& o.validity == validity
    &&& o.limit_price == ZERO_PRICE
    &&& o.stop_price == ZERO_PRICE
    &&& o.disclosed_qty == 0
    &&& !o.offline_order
    &&& o.stop_loss == ZERO_PRICE
    &&& o.take_profit == ZERO_PRICE
    &&& o.order_tag is None
    &&& !o.is_slice_order
}

/// The wire text of an optional tag: the tag, or `null`.
pub open spec fn tag_view(tag: Option<String>) -> WireView {
    match tag {
        Some(t) => WireView::Str(t@),
        None => WireView::Null,
    }
}

/// The fields of the body of an order, in the broker's names and encodings.
/// Every field is present.
pub open spec fn order_wire(o: OrderRequest) -> Seq<(Seq<char>, WireView)> {
    seq![
        ("symbol"@, WireView::Str(o.symbol@)),
        ("qty"@, WireView::Int(o.qty as int)),
        ("type"@, WireView::Int(order_type_code(o.order_type))),
        ("side"@, WireView::Int(side_code(o.side))),
        ("productType"@, WireView::Str(product_type_text(o.product_type))),
        ("limitPrice"@, WireView::Float(o.limit_price)),
        ("stopPrice"@, WireView::Float(o.stop_price)),
        ("disclosedQty"@, WireView::Int(o.disclosed_qty as int)),
        ("validity"@, WireView::Str(validity_text(o.validity))),
        ("offlineOrder"@, WireView::Bool(o.offline_order)),
        ("stopLoss"@, WireView::Float(o.stop_loss)),
        ("takeProfit"@, WireView::Float(o.take_profit)),
        ("orderTag"@, tag_view(o.order_tag)),
        ("isSliceOrder"@, WireView::Bool(o.is_slice_order)),
    ]
}

impl OrderRequest {
    /// Creates an [`OrderBuilder`]; the same as [`OrderBuilder::new`].
    pub fn builder(
        symbol: &str,
        qty: u32,
        order_type: OrderType,
        side: Side,
        product_type: ProductType,
        validity: Validity,
    ) -> (r: OrderBuilder)
        ensures
            is_fresh_order(r.request, symbol@, qty, order_type, side, product_type, validity),
    {
        OrderBuilder::new(symbol, qty, order_type, side, product_type, validity)
    }

    /// The fields of the JSON body that places this order.
    pub fn wire_fields(&self) -> (r: Vec<(String, WireValue)>)
        ensures
            fields_view(r@) == order_wire(*self),
    {
        let tag = match &self.order_tag {
            Some(t) => WireValue::Str(t.clone()),
            None => WireValue::Null,
        };
        let r = vec![
            named("symbol", WireValue::Str(self.symbol.clone())),
            named("qty", WireValue::Int(self.qty as i64)),
            named("type", WireValue::Int(self.order_type.code())),
            named("side", WireValue::Int(self.side.code())),
            named("productType", text(self.product_type.as_str())),
            named("limitPrice", WireValue::Float(self.limit_price)),
            named("stopPrice", WireValue::Float(self.stop_price)),
            named("disclosedQty", WireValue::Int(self.disclosed_qty as i64)),
            named("validity", text(self.validity.as_str())),
            named("offlineOrder", WireValue::Bool(self.offline_order)),
            named("stopLoss", WireValue::Float(self.stop_loss)),
            named("takeProfit", WireValue::Float(self.take_profit)),
            named("orderTag", tag),
            named("isSliceOrder", WireValue::Bool(self.is_slice_order)),
        ];
        assert(fields_view(r@) =~= order_wire(*self));
        r
    }
}

impl OrderBuilder {
    /// Creates a builder with the required fields and every other at its default.
    pub fn new(
        symbol: &str,
        qty: u32,
        order_type: OrderType,
        side: Side,
        product_type: ProductType,
        validity: Validity,
    ) -> (r: OrderBuilder)
        ensures
            is_fresh_order(r.request, symbol@, qty, order_type, side, product_type, validity),
    {
        OrderBuilder {
            request: OrderRequest {
                symbol: String::from_str(symbol),
                qty,
                order_type,
                side,
                product_type,
                limit_price: ZERO_PRICE,
                stop_price: ZERO_PRICE,
                disclosed_qty: 0,
                validity,
                offline_order: false,
                stop_loss: ZERO_PRICE,
                take_profit: ZERO_PRICE,
                order_tag: None,
                is_slice_order: false,
            },
        }
    }

    /// Sets the limit price, required for limit and stop-limit orders.
    pub fn limit_price(self, price: u64) -> (r: OrderBuilder)
        ensures
            r.request == (OrderRequest { limit_price: price, ..self.request }),
    {
        OrderBuilder { request: OrderRequest { limit_price: price, ..self.request } }
    }

    /// Sets the stop price, required for stop and stop-limit orders.
    pub fn stop_price(self, price: u64) -> (r: OrderBuilder)
        ensures
            r.request == (OrderRequest { stop_price: price, ..self.request }),
    {
        OrderBuilder { request: OrderRequest { stop_price: price, ..self.request } }
    }

    /// Sets the disclosed quantity, for equity orders.
    pub fn disclosed_qty(self, qty: u32) -> (r: OrderBuilder)
        ensures
            r.request == (OrderRequest { disclosed_qty: qty, ..self.request }),
    {
        OrderBuilder { request: OrderRequest { disclosed_qty: qty, ..self.request } }
    }

    /// Marks the order as placed after market hours.
    pub fn offline_order(self, value: bool) -> (r: OrderBuilder)
        ensures
            r.request == (OrderRequest { offline_order: value, ..self.request }),
    {
        OrderBuilder { request: OrderRequest { offline_order: value, ..self.request } }
    }

    /// Sets the stop-loss price, required for cover and bracket orders.
    pub fn stop_loss(self, price: u64) -> (r: OrderBuilder)
        ensures
            r.request == (OrderRequest { stop_loss: price, ..self.request }),
    {
        OrderBuilder { request: OrderRequest { stop_loss: price, ..self.request } }
    }

    /// Sets the take-profit price, required for bracket orders.
    pub fn take_profit(self, price: u64) -> (r: OrderBuilder)
        ensures
            r.request == (OrderRequest { take_profit: price, ..self.request }),
    {
        OrderBuilder { request: OrderRequest { take_profit: price, ..self.request } }
    }

    /// Attaches a tag that identifies the order.
    pub fn order_tag(self, tag: &str) -> (r: OrderBuilder)
        ensures
            r.request.order_tag is Some,
            r.request.order_tag.unwrap()@ == tag@,
            r.request == (OrderRequest { order_tag: r.request.order_tag, ..self.request }),
    {
        OrderBuilder { request: OrderRequest { order_tag: Some(String::from_str(tag)), ..self.request } }
    }

    /// Lets the broker split a quantity above the exchange's freeze limit.
    pub fn slice_order(self, value: bool) -> (r: OrderBuilder)
        ensures
            r.request == (OrderRequest { is_slice_order: value, ..self.request }),
    {
        OrderBuilder { request: OrderRequest { is_slice_order: value, ..self.request } }
    }

    /// Returns the configured request.
    pub fn build(self) -> (r: OrderRequest)
        ensures
            r == self.request,
    {
        self.request
    }
}

/// Returned on successfully placing an order.
#[derive(Debug, Clone, PartialEq, Eq)]
pub struct Order {
    /// Order ID.
    pub id: String,
}

/// `v` read as a placed order: an object whose `id` is a string.
pub open spec fn order_of(v: JsonValue) -> Option<Order> {
    match field(v, "id"@) {
        Some(id) => match string_of(id) {
            Some(id) => Some(Order { id }),
            None => None,
        },
        None => None,
    }
}

impl Order {
    /// Reads a placed order from a response.
    pub fn decode(v: &JsonValue) -> (r: Result<Order, serde_json::Error>)
        ensures
            match order_of(*v) {
                Some(o) => r is Ok && r.unwrap() == o,
                None => r is Err,
            },
    {
        let id = read_string(required(v, "id")?)?;
        Ok(Order { id })
    }
}

} // verus!
