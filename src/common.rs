//! The order record that the trading API and the streaming feed share.
use crate::fields::{
    get_bool, get_decimal, get_opt_decimal, get_opt_timestamp, get_opt_uuid, get_str, get_timestamp,
    get_u64_text, get_uuid, read_bool, read_decimal, read_opt_decimal, read_opt_timestamp,
    read_opt_uuid, read_str, read_timestamp, read_u64_text, read_uuid, text_is,
};
use crate::json::JsonValue;
use crate::numbers::{Decimal, Timestamp, Uuid};
use vstd::prelude::*;
use vstd::string::*;

verus! {

#[derive(Clone, Copy, Debug, PartialEq, Eq, Structural)]
pub enum OrderType {
    Market,
    Limit { limit_price: Decimal },
    Stop { stop_price: Decimal },
    StopLimit { limit_price: Decimal, stop_price: Decimal },
    TrailingStop { trail_price: Option<Decimal>, trail_percent: Option<Decimal> },
}

#[derive(Clone, Copy, Debug, PartialEq, Eq, Structural)]
pub enum TimeInForce {
    Day,
    GoodTilCancelled,
    Open,
    Close,
    ImmediateOrCancel,
    FillOrKill,
}

#[derive(Clone, Copy, Debug, PartialEq, Eq, Structural)]
pub struct TakeProfitSpec {
    pub limit_price: Decimal,
}

#[derive(Clone, Copy, Debug, PartialEq, Eq, Structural)]
pub struct StopLossSpec {
    pub stop_price: Decimal,
    pub limit_price: Decimal,
}

#[derive(Clone, Copy, Debug, PartialEq, Eq, Structural)]
pub enum OrderClass {
    Simple,
    Bracket { take_profit: TakeProfitSpec, stop_loss: StopLossSpec },
    OneCancelsOther { take_profit: TakeProfitSpec, stop_loss: StopLossSpec },
    OneTriggersOther { stop_loss: StopLossSpec },
}

#[derive(Clone, Copy, Debug, PartialEq, Eq, Structural)]
pub enum OrderStatus {
    Accepted,
    AcceptedForBidding,
    Calculated,
    Canceled,
    DoneForDay,
    Expired,
    Filled,
    New,
    PartiallyFilled,
    PendingCancel,
    PendingNew,
    PendingReplace,
    Rejected,
    Replaced,
    Stopped,
    Suspended,
}

#[derive(Clone, Copy, Debug, PartialEq, Eq, Structural)]
pub enum Side {
    Buy,
    Sell,
}

impl OrderType {
    pub fn default() -> (r: OrderType)
        ensures
            r == OrderType::Market,
    {
        OrderType::Market
    }
}

impl TimeInForce {
    /// An order lives for the day unless asked otherwise.
    pub fn default() -> (r: TimeInForce)
        ensures
            r == TimeInForce::Day,
    {
        TimeInForce::Day
    }
}

impl OrderClass {
    pub fn default() -> (r: OrderClass)
        ensures
            r == OrderClass::Simple,
    {
        OrderClass::Simple
    }
}

impl OrderStatus {
    pub fn default() -> (r: OrderStatus)
        ensures
            r == OrderStatus::New,
    {
        OrderStatus::New
    }
}

pub open spec fn opposite(s: Side) -> Side {
    match s {
        Side::Buy => Side::Sell,
        Side::Sell => Side::Buy,
    }
}

impl Side {
    pub fn default() -> (r: Side)
        ensures
            r == Side::Buy,
    {
        Side::Buy
    }

    /// The other side of the market.
    pub fn neg(self) -> (r: Side)
        ensures
            r == opposite(self),
    {
        match self {
            Side::Buy => Side::Sell,
            Side::Sell => Side::Buy,
        }
    }
}

/// An order as the API reports it.
#[derive(Clone, Debug, PartialEq, Eq)]
pub struct Order {
    pub id: Uuid,
    pub client_order_id: String,
    pub created_at: Timestamp,
    pub updated_at: Option<Timestamp>,
    pub submitted_at: Option<Timestamp>,
    pub filled_at: Option<Timestamp>,
    pub expired_at: Option<Timestamp>,
    pub canceled_at: Option<Timestamp>,
    pub failed_at: Option<Timestamp>,
    pub replaced_at: Option<Timestamp>,
    pub replaced_by: Option<Uuid>,
    pub replaces: Option<Uuid>,
    pub asset_id: Uuid,
    pub symbol: String,
    pub asset_class: String,
    pub notional: Option<Decimal>,
    pub qty: u64,
    pub filled_qty: u64,
    pub filled_avg_price: Option<Decimal>,
    pub order_type: OrderType,
    pub side: Side,
    pub time_in_force: TimeInForce,
    pub status: OrderStatus,
    pub extended_hours: bool,
    pub hwm: Option<Decimal>,
}

/// An order to be placed.
pub struct OrderIntent {
    pub symbol: String,
    pub qty: u64,
    pub side: Side,
    pub order_type: OrderType,
    pub time_in_force: TimeInForce,
    pub extended_hours: bool,
    pub client_order_id: Option<String>,
    pub order_class: OrderClass,
}

impl OrderIntent {
    /// A market order to buy one share of `symbol`, good until cancelled,
    /// in regular hours only.
    pub fn new(symbol: &str) -> (r: OrderIntent)
        ensures
            r.symbol@ == symbol@,
            r.qty == 1,
            r.side == Side::Buy,
            r.order_type == OrderType::Market,
            r.time_in_force == TimeInForce::GoodTilCancelled,
            !r.extended_hours,
            r.client_order_id is None,
            r.order_class == OrderClass::Simple,
    {
        OrderIntent {
            symbol: String::from_str(symbol),
            qty: 1,
            side: Side::Buy,
            order_type: OrderType::Market,
            time_in_force: TimeInForce::GoodTilCancelled,
            extended_hours: false,
            client_order_id: None,
            order_class: OrderClass::Simple,
        }
    }

    pub fn qty(self, qty: u64) -> (r: OrderIntent)
        ensures
            r == (OrderIntent { qty, ..self }),
    {
        OrderIntent { qty, ..self }
    }

    pub fn side(self, side: Side) -> (r: OrderIntent)
        ensures
            r == (OrderIntent { side, ..self }),
    {
        OrderIntent { side, ..self }
    }

    pub fn order_type(self, order_type: OrderType) -> (r: OrderIntent)
        ensures
            r == (OrderIntent { order_type, ..self }),
    {
        OrderIntent { order_type, ..self }
    }

    pub fn time_in_force(self, time_in_force: TimeInForce) -> (r: OrderIntent)
        ensures
            r == (OrderIntent { time_in_force, ..self }),
    {
        OrderIntent { time_in_force, ..self }
    }

    pub fn extended_hours(self, extended_hours: bool) -> (r: OrderIntent)
        ensures
            r == (OrderIntent { extended_hours, ..self }),
    {
        OrderIntent { extended_hours, ..self }
    }

    pub fn client_order_id(self, client_order_id: String) -> (r: OrderIntent)
        ensures
            r == (OrderIntent { client_order_id: Some(client_order_id), ..self }),
    {
        OrderIntent { client_order_id: Some(client_order_id), ..self }
    }

    pub fn order_class(self, order_class: OrderClass) -> (r: OrderIntent)
        ensures
            r == (OrderIntent { order_class, ..self }),
    {
        OrderIntent { order_class, ..self }
    }
}

pub open spec fn side_of(t: Seq<char>) -> Option<Side> {
    if t == "buy"@ {
        Some(Side::Buy)
    } else if t == "sell"@ {
        Some(Side::Sell)
    } else {
        None
    }
}

pub open spec fn time_in_force_of(t: Seq<char>) -> Option<TimeInForce> {
    if t == "day"@ {
        Some(TimeInForce::Day)
    } else if t == "gtc"@ {
        Some(TimeInForce::GoodTilCancelled)
    } else if t == "opg"@ {
        Some(TimeInForce::Open)
    } else if t == "cls"@ {
        Some(TimeInForce::Close)
    } else if t == "ioc"@ {
        Some(TimeInForce::ImmediateOrCancel)
    } else if t == "fok"@ {
        Some(TimeInForce::FillOrKill)
    } else {
        None
    }
}

pub open spec fn order_status_of(t: Seq<char>) -> Option<OrderStatus> {
    if t == "accepted"@ {
        Some(OrderStatus::Accepted)
    } else if t == "accepted_for_bidding"@ {
        Some(OrderStatus::AcceptedForBidding)
    } else if t == "calculated"@ {
        Some(OrderStatus::Calculated)
    } else if t == "canceled"@ {
        Some(OrderStatus::Canceled)
    } else if t == "done_for_day"@ {
        Some(OrderStatus::DoneForDay)
    } else if t == "expired"@ {
        Some(OrderStatus::Expired)
    } else if t == "filled"@ {
        Some(OrderStatus::Filled)
    } else if t == "new"@ {
        Some(OrderStatus::New)
    } else if t == "partially_filled"@ {
        Some(OrderStatus::PartiallyFilled)
    } else if t == "pending_cancel"@ {
        Some(OrderStatus::PendingCancel)
    } else if t == "pending_new"@ {
        Some(OrderStatus::PendingNew)
    } else if t == "pending_replace"@ {
        Some(OrderStatus::PendingReplace)
    } else if t == "rejected"@ {
        Some(OrderStatus::Rejected)
    } else if t == "replaced"@ {
        Some(OrderStatus::Replaced)
    } else if t == "stopped"@ {
        Some(OrderStatus::Stopped)
    } else if t == "suspended"@ {
        Some(OrderStatus::Suspended)
    } else {
        None
    }
}

/// The order type of an order object: its `type` member names the kind,
/// and the prices that kind needs stand beside it.
pub open spec fn order_type_of(d: JsonValue) -> Option<OrderType> {
    match get_str(d, "type"@) {
        Some(t) => if t@ == "market"@ {
            Some(OrderType::Market)
        } else if t@ == "limit"@ {
            match get_decimal(d, "limit_price"@) {
                Some(p) => Some(OrderType::Limit { limit_price: p }),
                None => None,
            }
        } else if t@ == "stop"@ {
            match get_decimal(d, "stop_price"@) {
                Some(p) => Some(OrderType::Stop { stop_price: p }),
                None => None,
            }
        } else if t@ == "stop_limit"@ {
            match (get_decimal(d, "limit_price"@), get_decimal(d, "stop_price"@)) {
                (Some(l), Some(s)) => Some(OrderType::StopLimit { limit_price: l, stop_price: s }),
                _ => None,
            }
        } else if t@ == "trailing_stop"@ {
            match (get_opt_decimal(d, "trail_price"@), get_opt_decimal(d, "trail_percent"@)) {
                (Some(p), Some(q)) => Some(OrderType::TrailingStop { trail_price: p, trail_percent: q }),
                _ => None,
            }
        } else {
            None
        },
        None => None,
    }
}

pub open spec fn enum_member<T>(d: JsonValue, k: Seq<char>, of: spec_fn(Seq<char>) -> Option<T>) -> Option<T> {
    match get_str(d, k) {
        Some(t) => of(t@),
        None => None,
    }
}

/// Every member of an order object reads as its field needs.
pub open spec fn order_readable(d: JsonValue) -> bool {
    &&& get_uuid(d, "id"@) is Some
    &&& get_str(d, "client_order_id"@) is Some
    &&& get_timestamp(d, "created_at"@) is Some
    &&& get_opt_timestamp(d, "updated_at"@) is Some
    &&& get_opt_timestamp(d, "submitted_at"@) is Some
    &&& get_opt_timestamp(d, "filled_at"@) is Some
    &&& get_opt_timestamp(d, "expired_at"@) is Some
    &&& get_opt_timestamp(d, "canceled_at"@) is Some
    &&& get_opt_timestamp(d, "failed_at"@) is Some
    &&& get_opt_timestamp(d, "replaced_at"@) is Some
    &&& get_opt_uuid(d, "replaced_by"@) is Some
    &&& get_opt_uuid(d, "replaces"@) is Some
    &&& get_uuid(d, "asset_id"@) is Some
    &&& get_str(d, "symbol"@) is Some
    &&& get_str(d, "asset_class"@) is Some
    &&& get_opt_decimal(d, "notional"@) is Some
    &&& get_u64_text(d, "qty"@) is Some
    &&& get_u64_text(d, "filled_qty"@) is Some
    &&& get_opt_decimal(d, "filled_avg_price"@) is Some
    &&& order_type_of(d) is Some
    &&& enum_member(d, "side"@, |t| side_of(t)) is Some
    &&& enum_member(d, "time_in_force"@, |t| time_in_force_of(t)) is Some
    &&& enum_member(d, "status"@, |t| order_status_of(t)) is Some
    &&& get_bool(d, "extended_hours"@) is Some
    &&& get_opt_decimal(d, "hwm"@) is Some
}

/// The order that an order object describes; `None` where a member does not
/// read as its field needs. Members that no field names are passed over.
pub open spec fn order_of(d: JsonValue) -> Option<Order> {
    if order_readable(d) {
        Some(Order {
            id: get_uuid(d, "id"@).unwrap(),
            client_order_id: get_str(d, "client_order_id"@).unwrap(),
            created_at: get_timestamp(d, "created_at"@).unwrap(),
            updated_at: get_opt_timestamp(d, "updated_at"@).unwrap(),
            submitted_at: get_opt_timestamp(d, "submitted_at"@).unwrap(),
            filled_at: get_opt_timestamp(d, "filled_at"@).unwrap(),
            expired_at: get_opt_timestamp(d, "expired_at"@).unwrap(),
            canceled_at: get_opt_timestamp(d, "canceled_at"@).unwrap(),
            failed_at: get_opt_timestamp(d, "failed_at"@).unwrap(),
            replaced_at: get_opt_timestamp(d, "replaced_at"@).unwrap(),
            replaced_by: get_opt_uuid(d, "replaced_by"@).unwrap(),
            replaces: get_opt_uuid(d, "replaces"@).unwrap(),
            asset_id: get_uuid(d, "asset_id"@).unwrap(),
            symbol: get_str(d, "symbol"@).unwrap(),
            asset_class: get_str(d, "asset_class"@).unwrap(),
            notional: get_opt_decimal(d, "notional"@).unwrap(),
            qty: get_u64_text(d, "qty"@).unwrap(),
            filled_qty: get_u64_text(d, "filled_qty"@).unwrap(),
            filled_avg_price: get_opt_decimal(d, "filled_avg_price"@).unwrap(),
            order_type: order_type_of(d).unwrap(),
            side: enum_member(d, "side"@, |t| side_of(t)).unwrap(),
            time_in_force: enum_member(d, "time_in_force"@, |t| time_in_force_of(t)).unwrap(),
            status: enum_member(d, "status"@, |t| order_status_of(t)).unwrap(),
            extended_hours: get_bool(d, "extended_hours"@).unwrap(),
            hwm: get_opt_decimal(d, "hwm"@).unwrap(),
        })
    } else {
        None
    }
}

fn read_side(t: &String) -> (r: Option<Side>)
    ensures
        r == side_of(t@),
{
    if text_is(t, "buy") {
        Some(Side::Buy)
    } else if text_is(t, "sell") {
        Some(Side::Sell)
    } else {
        None
    }
}

fn read_time_in_force(t: &String) -> (r: Option<TimeInForce>)
    ensures
        r == time_in_force_of(t@),
{
    if text_is(t, "day") {
        Some(TimeInForce::Day)
    } else if text_is(t, "gtc") {
        Some(TimeInForce::GoodTilCancelled)
    } else if text_is(t, "opg") {
        Some(TimeInForce::Open)
    } else if text_is(t, "cls") {
        Some(TimeInForce::Close)
    } else if text_is(t, "ioc") {
        Some(TimeInForce::ImmediateOrCancel)
    } else if text_is(t, "fok") {
        Some(TimeInForce::FillOrKill)
    } else {
        None
    }
}

fn read_order_status(t: &String) -> (r: Option<OrderStatus>)
    ensures
        r == order_status_of(t@),
{
    if text_is(t, "accepted") {
        Some(OrderStatus::Accepted)
    } else if text_is(t, "accepted_for_bidding") {
        Some(OrderStatus::AcceptedForBidding)
    } else if text_is(t, "calculated") {
        Some(OrderStatus::Calculated)
    } else if text_is(t, "canceled") {
        Some(OrderStatus::Canceled)
    } else if text_is(t, "done_for_day") {
        Some(OrderStatus::DoneForDay)
    } else if text_is(t, "expired") {
        Some(OrderStatus::Expired)
    } else if text_is(t, "filled") {
        Some(OrderStatus::Filled)
    } else if text_is(t, "new") {
        Some(OrderStatus::New)
    } else if text_is(t, "partially_filled") {
        Some(OrderStatus::PartiallyFilled)
    } else if text_is(t, "pending_cancel") {
        Some(OrderStatus::PendingCancel)
    } else if text_is(t, "pending_new") {
        Some(OrderStatus::PendingNew)
    } else if text_is(t, "pending_replace") {
        Some(OrderStatus::PendingReplace)
    } else if text_is(t, "rejected") {
        Some(OrderStatus::Rejected)
    } else if text_is(t, "replaced") {
        Some(OrderStatus::Replaced)
    } else if text_is(t, "stopped") {
        Some(OrderStatus::Stopped)
    } else if text_is(t, "suspended") {
        Some(OrderStatus::Suspended)
    } else {
        None
    }
}

impl OrderType {
    /// Reads the order type out of an order object.
    pub fn from_json(d: &JsonValue) -> (r: Option<OrderType>)
        ensures
            r == order_type_of(*d),
    {
        let t = match read_str(d, "type") {
            Some(t) => t,
            None => return None,
        };
        if text_is(&t, "market") {
            Some(OrderType::Market)
        } else if text_is(&t, "limit") {
            match read_decimal(d, "limit_price") {
                Some(p) => Some(OrderType::Limit { limit_price: p }),
                None => None,
            }
        } else if text_is(&t, "stop") {
            match read_decimal(d, "stop_price") {
                Some(p) => Some(OrderType::Stop { stop_price: p }),
                None => None,
            }
        } else if text_is(&t, "stop_limit") {
            match (read_decimal(d, "limit_price"), read_decimal(d, "stop_price")) {
                (Some(l), Some(s)) => Some(OrderType::StopLimit { limit_price: l, stop_price: s }),
                _ => None,
            }
        } else if text_is(&t, "trailing_stop") {
            match (read_opt_decimal(d, "trail_price"), read_opt_decimal(d, "trail_percent")) {
                (Some(p), Some(q)) => Some(OrderType::TrailingStop { trail_price: p, trail_percent: q }),
                _ => None,
            }
        } else {
            None
        }
    }
}

impl Order {
    /// Reads an order out of an order object.
    pub fn from_json(d: &JsonValue) -> (r: Option<Order>)
        ensures
            r == order_of(*d),
    {
        let id = match read_uuid(d, "id") { Some(x) => x, None => return None };
        let client_order_id = match read_str(d, "client_order_id") { Some(x) => x, None => return None };
        let created_at = match read_timestamp(d, "created_at") { Some(x) => x, None => return None };
        let updated_at = match read_opt_timestamp(d, "updated_at") { Some(x) => x, None => return None };
        let submitted_at = match read_opt_timestamp(d, "submitted_at") { Some(x) => x, None => return None };
        let filled_at = match read_opt_timestamp(d, "filled_at") { Some(x) => x, None => return None };
        let expired_at = match read_opt_timestamp(d, "expired_at") { Some(x) => x, None => return None };
        let canceled_at = match read_opt_timestamp(d, "canceled_at") { Some(x) => x, None => return None };
        let failed_at = match read_opt_timestamp(d, "failed_at") { Some(x) => x, None => return None };
        let replaced_at = match read_opt_timestamp(d, "replaced_at") { Some(x) => x, None => return None };
        let replaced_by = match read_opt_uuid(d, "replaced_by") { Some(x) => x, None => return None };
        let replaces = match read_opt_uuid(d, "replaces") { Some(x) => x, None => return None };
        let asset_id = match read_uuid(d, "asset_id") { Some(x) => x, None => return None };
        let symbol = match read_str(d, "symbol") { Some(x) => x, None => return None };
        let asset_class = match read_str(d, "asset_class") { Some(x) => x, None => return None };
        let notional = match read_opt_decimal(d, "notional") { Some(x) => x, None => return None };
        let qty = match read_u64_text(d, "qty") { Some(x) => x, None => return None };
        let filled_qty = match read_u64_text(d, "filled_qty") { Some(x) => x, None => return None };
        let filled_avg_price = match read_opt_decimal(d, "filled_avg_price") { Some(x) => x, None => return None };
        let order_type = match OrderType::from_json(d) { Some(x) => x, None => return None };
        let side = match read_str(d, "side") {
            Some(t) => match read_side(&t) { Some(x) => x, None => return None },
            None => return None,
        };
        let time_in_force = match read_str(d, "time_in_force") {
            Some(t) => match read_time_in_force(&t) { Some(x) => x, None => return None },
            None => return None,
        };
        let status = match read_str(d, "status") {
            Some(t) => match read_order_status(&t) { Some(x) => x, None => return None },
            None => return None,
        };
        let extended_hours = match read_bool(d, "extended_hours") { Some(x) => x, None => return None };
        let hwm = match read_opt_decimal(d, "hwm") { Some(x) => x, None => return None };
        Some(Order {
            id,
            client_order_id,
            created_at,
            updated_at,
            submitted_at,
            filled_at,
            expired_at,
            canceled_at,
            failed_at,
            replaced_at,
            replaced_by,
            replaces,
            asset_id,
            symbol,
            asset_class,
            notional,
            qty,
            filled_qty,
            filled_avg_price,
            order_type,
            side,
            time_in_force,
            status,
            extended_hours,
            hwm,
        })
    }
}

} // verus!
