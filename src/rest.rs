//! The requests of the trading API: the path that each one calls, relative
//! to the API's base URL, its method, and the query it carries.
use crate::common::{Order, OrderIntent};
use crate::numbers::{Timestamp, Uuid};
use vstd::prelude::*;
use vstd::string::*;

verus! {

#[derive(Clone, Copy, Debug, PartialEq, Eq, Structural)]
pub enum Method {
    Get,
    Post,
    Patch,
    Delete,
}

#[derive(Clone, Copy, Debug, PartialEq, Eq, Structural)]
pub enum AssetClass {
    UsEquity,
}

#[derive(Clone, Copy, Debug, PartialEq, Eq, Structural)]
pub enum Exchange {
    Amex,
    Arca,
    Bats,
    Nyse,
    Nasdaq,
    NyseArca,
    Otc,
}

#[derive(Clone, Copy, Debug, PartialEq, Eq, Structural)]
pub enum Status {
    Active,
    Inactive,
}

#[derive(Clone, Copy, Debug, PartialEq, Eq, Structural)]
pub enum AccountStatus {
    Onboarding,
    SubmissionFailed,
    Submitted,
    AccountUpdate,
    ApprovalPending,
    Active,
    Rejected,
}

#[derive(Clone, Copy, Debug, PartialEq, Eq, Structural)]
pub enum FillType {
    Fill,
    PartialFill,
}

#[derive(Clone, Copy, Debug, PartialEq, Eq, Structural)]
pub enum TimeFrame {
    OneMin,
    FiveMin,
    FifeteenMin,
    OneHour,
    OneDay,
}

#[derive(Clone, Copy, Debug, PartialEq, Eq, Structural)]
pub enum DtbpCheck {
    Both,
    Entry,
    Exit,
}

#[derive(Clone, Copy, Debug, PartialEq, Eq, Structural)]
pub enum TradeConfirmEmail {
    All,
    Zero,
}

#[derive(Clone, Copy, Debug, PartialEq, Eq, Structural)]
pub enum QueryOrderStatus {
    Open,
    Closed,
    All,
}

#[derive(Clone, Copy, Debug, PartialEq, Eq, Structural)]
pub enum Sort {
    Ascending,
    Descending,
}

impl AssetClass {
    pub fn default() -> (r: AssetClass)
        ensures
            r == AssetClass::UsEquity,
    {
        AssetClass::UsEquity
    }

    /// The name of the class on the wire.
    pub fn as_str(&self) -> (r: &'static str)
        ensures
            r@ == "us_equity"@,
    {
        "us_equity"
    }
}

impl Status {
    pub fn default() -> (r: Status)
        ensures
            r == Status::Active,
    {
        Status::Active
    }

    /// The name of the status on the wire.
    pub fn as_str(&self) -> (r: &'static str)
        ensures
            *self == Status::Active ==> r@ == "active"@,
            *self == Status::Inactive ==> r@ == "inactive"@,
    {
        match self {
            Status::Active => "active",
            Status::Inactive => "inactive",
        }
    }
}

impl DtbpCheck {
    pub fn default() -> (r: DtbpCheck)
        ensures
            r == DtbpCheck::Entry,
    {
        DtbpCheck::Entry
    }
}

impl TradeConfirmEmail {
    pub fn default() -> (r: TradeConfirmEmail)
        ensures
            r == TradeConfirmEmail::All,
    {
        TradeConfirmEmail::All
    }
}

impl QueryOrderStatus {
    pub fn default() -> (r: QueryOrderStatus)
        ensures
            r == QueryOrderStatus::Open,
    {
        QueryOrderStatus::Open
    }
}

impl Sort {
    pub fn default() -> (r: Sort)
        ensures
            r == Sort::Descending,
    {
        Sort::Descending
    }
}

/// A query parameter: its name and its value.
pub type Param = (String, String);

pub open spec fn param_is(p: Param, name: Seq<char>, value: Seq<char>) -> bool {
    p.0@ == name && p.1@ == value
}

/// The active or inactive assets of a class.
#[derive(Clone, Copy, Debug, PartialEq, Eq, Structural)]
pub struct GetAssets {
    pub status: Status,
    pub asset_class: AssetClass,
}

impl GetAssets {
    /// The active assets of the US equity class.
    pub fn new() -> (r: GetAssets)
        ensures
            r == (GetAssets { status: Status::Active, asset_class: AssetClass::UsEquity }),
    {
        GetAssets { status: Status::default(), asset_class: AssetClass::default() }
    }

    pub fn endpoint(&self) -> (r: String)
        ensures
            r@ == "assets"@,
    {
        String::from_str("assets")
    }

    pub fn method(&self) -> (r: Method)
        ensures
            r == Method::Get,
    {
        Method::Get
    }

    /// The query: the status, then the asset class.
    pub fn query(&self) -> (r: Vec<Param>)
        ensures
            r@.len() == 2,
            param_is(r@[0], "status"@, if self.status == Status::Active { "active"@ } else { "inactive"@ }),
            param_is(r@[1], "asset_class"@, "us_equity"@),
    {
        let mut q: Vec<Param> = Vec::new();
        q.push((String::from_str("status"), String::from_str(self.status.as_str())));
        q.push((String::from_str("asset_class"), String::from_str(self.asset_class.as_str())));
        q
    }
}

/// One asset, by symbol or id.
pub struct GetAsset(pub String);

impl GetAsset {
    pub fn endpoint(&self) -> (r: String)
        ensures
            r@ == "assets/"@ + self.0@,
    {
        String::from_str("assets/").concat(self.0.as_str())
    }

    pub fn method(&self) -> (r: Method)
        ensures
            r == Method::Get,
    {
        Method::Get
    }
}

/// The account.
pub struct GetAccount;

impl GetAccount {
    pub fn endpoint(&self) -> (r: String)
        ensures
            r@ == "account"@,
    {
        String::from_str("account")
    }

    pub fn method(&self) -> (r: Method)
        ensures
            r == Method::Get,
    {
        Method::Get
    }
}

/// The activities of the account.
pub struct GetAccountActivities;

impl GetAccountActivities {
    pub fn endpoint(&self) -> (r: String)
        ensures
            r@ == "account/activities"@,
    {
        String::from_str("account/activities")
    }

    pub fn method(&self) -> (r: Method)
        ensures
            r == Method::Get,
    {
        Method::Get
    }
}

/// The settings of the account.
#[derive(Clone, Copy, Debug, PartialEq, Eq, Structural)]
pub struct AccountConfigurations {
    pub dtbp_check: DtbpCheck,
    pub trade_confirm_email: TradeConfirmEmail,
    pub suspend_trade: bool,
    pub no_shorting: bool,
}

impl AccountConfigurations {
    /// The settings that a new account has.
    pub fn new() -> (r: AccountConfigurations)
        ensures
            r == (AccountConfigurations {
                dtbp_check: DtbpCheck::Entry,
                trade_confirm_email: TradeConfirmEmail::All,
                suspend_trade: false,
                no_shorting: false,
            }),
    {
        AccountConfigurations {
            dtbp_check: DtbpCheck::default(),
            trade_confirm_email: TradeConfirmEmail::default(),
            suspend_trade: false,
            no_shorting: false,
        }
    }
}

/// Reads the settings of the account.
pub struct GetAccountConfigurations;

impl GetAccountConfigurations {
    pub fn endpoint(&self) -> (r: String)
        ensures
            r@ == "account/configurations"@,
    {
        String::from_str("account/configurations")
    }

    pub fn method(&self) -> (r: Method)
        ensures
            r == Method::Get,
    {
        Method::Get
    }
}

/// Changes the settings of the account to those it holds.
pub struct PatchAccountConfigurations(pub AccountConfigurations);

impl PatchAccountConfigurations {
    pub fn endpoint(&self) -> (r: String)
        ensures
            r@ == "account/configurations"@,
    {
        String::from_str("account/configurations")
    }

    pub fn method(&self) -> (r: Method)
        ensures
            r == Method::Patch,
    {
        Method::Patch
    }

    /// The settings sent as the body.
    pub fn body(&self) -> (r: &AccountConfigurations)
        ensures
            *r == self.0,
    {
        &self.0
    }
}

/// The clock of the market.
pub struct GetClock;

impl GetClock {
    pub fn endpoint(&self) -> (r: String)
        ensures
            r@ == "clock"@,
    {
        String::from_str("clock")
    }
}

/// The history of the portfolio.
pub struct GetHistory;

impl GetHistory {
    pub fn endpoint(&self) -> (r: String)
        ensures
            r@ == "account/portfolio/history"@,
    {
        String::from_str("account/portfolio/history")
    }
}

/// All open positions.
pub struct GetPositions;

impl GetPositions {
    pub fn endpoint(&self) -> (r: String)
        ensures
            r@ == "positions"@,
    {
        String::from_str("positions")
    }
}

/// The position in one symbol.
pub struct GetPosition(pub String);

impl GetPosition {
    pub fn endpoint(&self) -> (r: String)
        ensures
            r@ == "positions/"@ + self.0@,
    {
        String::from_str("positions/").concat(self.0.as_str())
    }
}

/// Closes all open positions.
pub struct CloseAllPositions;

impl CloseAllPositions {
    pub fn endpoint(&self) -> (r: String)
        ensures
            r@ == "positions"@,
    {
        String::from_str("positions")
    }

    pub fn method(&self) -> (r: Method)
        ensures
            r == Method::Delete,
    {
        Method::Delete
    }
}

/// Closes the position in one symbol.
pub struct ClosePosition(pub String);

impl ClosePosition {
    pub fn endpoint(&self) -> (r: String)
        ensures
            r@ == "positions/"@ + self.0@,
    {
        String::from_str("positions/").concat(self.0.as_str())
    }

    pub fn method(&self) -> (r: Method)
        ensures
            r == Method::Delete,
    {
        Method::Delete
    }
}

/// One order, by id.
pub struct GetOrder {
    pub order_id: String,
    pub nested: bool,
}

impl GetOrder {
    /// The order `order_id`, its legs not nested in it.
    pub fn new(order_id: String) -> (r: GetOrder)
        ensures
            r.order_id == order_id,
            !r.nested,
    {
        GetOrder { order_id, nested: false }
    }

    pub fn endpoint(&self) -> (r: String)
        ensures
            r@ == "orders/"@ + self.order_id@,
    {
        String::from_str("orders/").concat(self.order_id.as_str())
    }

    /// The query: whether legs are nested.
    pub fn query(&self) -> (r: Vec<Param>)
        ensures
            r@.len() == 1,
            param_is(r@[0], "nested"@, if self.nested { "true"@ } else { "false"@ }),
    {
        let mut q: Vec<Param> = Vec::new();
        let v = if self.nested { String::from_str("true") } else { String::from_str("false") };
        q.push((String::from_str("nested"), v));
        q
    }
}

/// Cancels one order.
pub struct CancelOrder(pub String);

impl CancelOrder {
    pub fn endpoint(&self) -> (r: String)
        ensures
            r@ == "orders/"@ + self.0@,
    {
        String::from_str("orders/").concat(self.0.as_str())
    }

    pub fn method(&self) -> (r: Method)
        ensures
            r == Method::Delete,
    {
        Method::Delete
    }
}

/// Cancels every open order.
pub struct CancelAllOrders();

impl CancelAllOrders {
    pub fn endpoint(&self) -> (r: String)
        ensures
            r@ == "orders"@,
    {
        String::from_str("orders")
    }

    pub fn method(&self) -> (r: Method)
        ensures
            r == Method::Delete,
    {
        Method::Delete
    }
}

/// The reply to a request that answers with no body.
pub struct EmptyResponse;

/// The orders, filtered and sorted.
pub struct GetOrders {
    pub status: QueryOrderStatus,
    pub limit: u16,
    pub after: Option<Timestamp>,
    pub until: Option<Timestamp>,
    pub direction: Sort,
    pub nested: bool,
}

impl GetOrders {
    /// The 50 latest open orders, newest first, legs not nested.
    pub fn new() -> (r: GetOrders)
        ensures
            r == (GetOrders {
                status: QueryOrderStatus::Open,
                limit: 50,
                after: None,
                until: None,
                direction: Sort::Descending,
                nested: false,
            }),
    {
        GetOrders::default()
    }

    pub fn default() -> (r: GetOrders)
        ensures
            r == (GetOrders {
                status: QueryOrderStatus::Open,
                limit: 50,
                after: None,
                until: None,
                direction: Sort::Descending,
                nested: false,
            }),
    {
        GetOrders {
            status: QueryOrderStatus::default(),
            limit: 50,
            after: None,
            until: None,
            direction: Sort::default(),
            nested: false,
        }
    }

    pub fn endpoint(&self) -> (r: String)
        ensures
            r@ == "orders"@,
    {
        String::from_str("orders")
    }
}

/// Places an order.
pub struct SubmitOrder(pub OrderIntent);

impl SubmitOrder {
    pub fn endpoint(&self) -> (r: String)
        ensures
            r@ == "orders"@,
    {
        String::from_str("orders")
    }

    pub fn method(&self) -> (r: Method)
        ensures
            r == Method::Post,
    {
        Method::Post
    }

    /// The order sent as the body.
    pub fn body(&self) -> (r: &OrderIntent)
        ensures
            *r == self.0,
    {
        &self.0
    }
}

/// Replaces the order of the given id by another.
pub struct ReplaceOrder(pub String, pub OrderIntent);

impl ReplaceOrder {
    pub fn endpoint(&self) -> (r: String)
        ensures
            r@ == "orders/"@ + self.0@,
    {
        String::from_str("orders/").concat(self.0.as_str())
    }

    pub fn method(&self) -> (r: Method)
        ensures
            r == Method::Post,
    {
        Method::Post
    }

    /// The new order sent as the body.
    pub fn body(&self) -> (r: &OrderIntent)
        ensures
            *r == self.1,
    {
        &self.1
    }
}

/// The outcome of cancelling one order, as cancelling all orders reports it.
pub struct CancellationAttempt {
    pub id: Uuid,
    pub status: usize,
    pub body: Order,
}

/// A day of the calendar.
#[derive(Clone, Copy, Debug, PartialEq, Eq, Structural)]
pub struct Date {
    pub year: i32,
    pub month: u32,
    pub day: u32,
}

/// The trading days from `start` to `end`.
#[derive(Clone, Copy, Debug, PartialEq, Eq, Structural)]
pub struct GetCalendar {
    start: Date,
    end: Date,
}

impl GetCalendar {
    pub closed spec fn start_date(self) -> Date {
        self.start
    }

    pub closed spec fn end_date(self) -> Date {
        self.end
    }

    pub fn new(start: Date, end: Date) -> (r: GetCalendar)
        ensures
            r.start_date() == start,
            r.end_date() == end,
    {
        GetCalendar { start, end }
    }

    /// The days from 1970-01-01 to 2029-12-31.
    pub fn default() -> (r: GetCalendar)
        ensures
            r.start_date() == (Date { year: 1970, month: 1, day: 1 }),
            r.end_date() == (Date { year: 2029, month: 12, day: 31 }),
    {
        GetCalendar { start: Date { year: 1970, month: 1, day: 1 }, end: Date { year: 2029, month: 12, day: 31 } }
    }

    pub fn start(self, date: Date) -> (r: GetCalendar)
        ensures
            r.start_date() == date,
            r.end_date() == self.end_date(),
    {
        GetCalendar { start: date, ..self }
    }

    pub fn end(self, date: Date) -> (r: GetCalendar)
        ensures
            r.start_date() == self.start_date(),
            r.end_date() == date,
    {
        GetCalendar { end: date, ..self }
    }

    pub fn endpoint(&self) -> (r: String)
        ensures
            r@ == "calendar"@,
    {
        String::from_str("calendar")
    }
}

} // verus!
