//! The messages of the streaming protocol, and their JSON encoding.
use crate::common::{order_of, Order};
use crate::fields::{
    get_decimal, get_i64_text, get_opt_str, get_str, get_timestamp, read_decimal, read_i64_text,
    read_opt_str, read_str, read_timestamp, text_is,
};
use crate::json::{
    field, get_field, member, json_of_bytes, json_of_text, parse_bytes, parse_text, print_json,
    text_of_json, JsonValue,
};
use crate::numbers::{Decimal, Timestamp};
use vstd::prelude::*;
use vstd::string::*;

verus! {

/// The payloads that the API names `streams` and `auth`.
pub enum AlpacaData {
    Streams(Vec<String>),
    Auth { key_id: String, secret_key: String },
}

/// A request from the client: `{"action": <tag>, "data": <fields>}`.
pub enum AlpacaAction {
    Listen { streams: Vec<String> },
    Authenticate { key_id: String, secret_key: String },
}

/// What happened to an order. The events that carry fields hold those that
/// belong to them.
#[derive(Clone, Copy, Debug, PartialEq, Eq, Structural)]
pub enum Event {
    Calculated,
    Canceled { timestamp: Timestamp },
    DoneForDay,
    Expired { timestamp: Timestamp },
    Fill { price: Decimal, timestamp: Timestamp, qty: i64, position_qty: i64 },
    New,
    OrderCancelRejected,
    OrderReplaceRejected,
    PartialFill { price: Decimal, timestamp: Timestamp, qty: i64, position_qty: i64 },
    PendingCancel,
    PendingNew,
    PendingReplace,
    Rejected { timestamp: Timestamp },
    Replaced { timestamp: Timestamp },
    Stopped,
    Suspended,
}

/// An event together with the order as it stood when the event happened.
pub struct OrderEvent {
    pub event: Event,
    pub order: Order,
}

#[derive(Clone, Copy, Debug, PartialEq, Eq, Structural)]
pub enum AuthorizationStatus {
    Authorized,
    Unauthorized,
}

/// A message from the server: `{"stream": <tag>, "data": <fields>}`.
#[allow(inconsistent_fields)]
pub enum AlpacaMessage {
    Authorization { status: AuthorizationStatus, action: String },
    Listening { streams: Vec<String> },
    TradeUpdates(OrderEvent),
    AccountUpdates {
        id: String,
        created_at: String,
        updated_at: String,
        deleted_at: Option<String>,
        status: String,
        currency: String,
        cash: Decimal,
        cash_withdrawable: Decimal,
    },
}

/// Why a frame did not decode.
#[derive(Clone, Copy, Debug, PartialEq, Eq, Structural)]
pub enum DecodeError {
    /// The frame is not one JSON value.
    Malformed,
    /// The frame is JSON, but no message of the protocol has its shape.
    UnrecognizedMessage,
}

/// `j` is an array of exactly the strings `ss`, in order.
pub open spec fn strings_json(j: JsonValue, ss: Seq<String>) -> bool {
    &&& j matches JsonValue::Array(a)
    &&& a@.len() == ss.len()
    &&& forall|i: int| 0 <= i < ss.len() ==> a@[i] == JsonValue::Str(#[trigger] ss[i])
}

/// The strings of an array of strings; `None` for any other value.
pub open spec fn strings_of(j: JsonValue) -> Option<Seq<String>> {
    match j {
        JsonValue::Array(a) => if forall|i: int| 0 <= i < a@.len() ==> (#[trigger] a@[i]) is Str {
            Some(Seq::new(a@.len(), |i: int| a@[i]->Str_0))
        } else {
            None
        },
        _ => None,
    }
}

/// `j` is an object of exactly one member, `key`, whose value is `v`.
pub open spec fn single_member(j: JsonValue, key: Seq<char>, v: JsonValue) -> bool {
    &&& j matches JsonValue::Object(e)
    &&& e@.len() == 1
    &&& e@[0].0@ == key
    &&& e@[0].1 == v
}

/// `j` is the envelope `{"action": tag, "data": data}`.
pub open spec fn action_envelope(j: JsonValue, tag: Seq<char>, data: JsonValue) -> bool {
    &&& j matches JsonValue::Object(e)
    &&& e@.len() == 2
    &&& e@[0].0@ == "action"@
    &&& e@[0].1 matches JsonValue::Str(t)
    &&& t@ == tag
    &&& e@[1].0@ == "data"@
    &&& e@[1].1 == data
}

/// `j` is the JSON tree of the action `a`.
pub open spec fn action_json(a: AlpacaAction, j: JsonValue) -> bool {
    match a {
        AlpacaAction::Listen { streams } => {
            let d = field(j, "data"@).unwrap();
            let s = field(d, "streams"@).unwrap();
            &&& action_envelope(j, "listen"@, d)
            &&& single_member(d, "streams"@, s)
            &&& strings_json(s, streams@)
        },
        AlpacaAction::Authenticate { key_id, secret_key } => {
            let d = field(j, "data"@).unwrap();
            &&& action_envelope(j, "authenticate"@, d)
            &&& d matches JsonValue::Object(e)
            &&& e@.len() == 2
            &&& e@[0].0@ == "key_id"@
            &&& e@[0].1 == JsonValue::Str(key_id)
            &&& e@[1].0@ == "secret_key"@
            &&& e@[1].1 == JsonValue::Str(secret_key)
        },
    }
}

/// The text of the action `a` on the wire.
pub open spec fn action_text(a: AlpacaAction, t: Seq<char>) -> bool {
    exists|j: JsonValue| action_json(a, j) && t == text_of_json(j)
}

pub open spec fn authorization_status_of(t: Seq<char>) -> Option<AuthorizationStatus> {
    if t == "authorized"@ {
        Some(AuthorizationStatus::Authorized)
    } else if t == "unauthorized"@ {
        Some(AuthorizationStatus::Unauthorized)
    } else {
        None
    }
}

/// An event that carries only the instant at which it happened.
pub open spec fn timed_event(d: JsonValue, make: spec_fn(Timestamp) -> Event) -> Option<Event> {
    match get_timestamp(d, "timestamp"@) {
        Some(ts) => Some(make(ts)),
        None => None,
    }
}

/// The fields of a fill: its price and instant, and the filled quantity and
/// the position's quantity, each written in a string.
pub open spec fn fill_fields(d: JsonValue) -> Option<(Decimal, Timestamp, i64, i64)> {
    match (get_decimal(d, "price"@), get_timestamp(d, "timestamp"@), get_i64_text(d, "qty"@), get_i64_text(d, "position_qty"@)) {
        (Some(p), Some(ts), Some(q), Some(pq)) => Some((p, ts, q, pq)),
        _ => None,
    }
}

/// The event that the `event` member of `d` names, with its fields.
pub open spec fn event_of(d: JsonValue) -> Option<Event> {
    match get_str(d, "event"@) {
        Some(t) => {
            let t = t@;
            if t == "calculated"@ {
                Some(Event::Calculated)
            } else if t == "canceled"@ {
                timed_event(d, |ts: Timestamp| Event::Canceled { timestamp: ts })
            } else if t == "done_for_day"@ {
                Some(Event::DoneForDay)
            } else if t == "expired"@ {
                timed_event(d, |ts: Timestamp| Event::Expired { timestamp: ts })
            } else if t == "fill"@ {
                match fill_fields(d) {
                    Some((p, ts, q, pq)) => Some(Event::Fill { price: p, timestamp: ts, qty: q, position_qty: pq }),
                    None => None,
                }
            } else if t == "new"@ {
                Some(Event::New)
            } else if t == "order_cancel_rejected"@ {
                Some(Event::OrderCancelRejected)
            } else if t == "order_replace_rejected"@ {
                Some(Event::OrderReplaceRejected)
            } else if t == "partial_fill"@ {
                match fill_fields(d) {
                    Some((p, ts, q, pq)) => Some(Event::PartialFill { price: p, timestamp: ts, qty: q, position_qty: pq }),
                    None => None,
                }
            } else if t == "pending_cancel"@ {
                Some(Event::PendingCancel)
            } else if t == "pending_new"@ {
                Some(Event::PendingNew)
            } else if t == "pending_replace"@ {
                Some(Event::PendingReplace)
            } else if t == "rejected"@ {
                timed_event(d, |ts: Timestamp| Event::Rejected { timestamp: ts })
            } else if t == "replaced"@ {
                timed_event(d, |ts: Timestamp| Event::Replaced { timestamp: ts })
            } else if t == "stopped"@ {
                Some(Event::Stopped)
            } else if t == "suspended"@ {
                Some(Event::Suspended)
            } else {
                None
            }
        },
        None => None,
    }
}

/// The order event in the data of a `trade_updates` message.
pub open spec fn order_event_of(d: JsonValue) -> Option<OrderEvent> {
    match (event_of(d), field(d, "order"@)) {
        (Some(e), Some(o)) => match order_of(o) {
            Some(order) => Some(OrderEvent { event: e, order }),
            None => None,
        },
        _ => None,
    }
}

/// Every member of the data of an `account_updates` message reads as its
/// field needs.
pub open spec fn account_update_readable(d: JsonValue) -> bool {
    &&& get_str(d, "id"@) is Some
    &&& get_str(d, "created_at"@) is Some
    &&& get_str(d, "updated_at"@) is Some
    &&& get_opt_str(d, "deleted_at"@) is Some
    &&& get_str(d, "status"@) is Some
    &&& get_str(d, "currency"@) is Some
    &&& get_decimal(d, "cash"@) is Some
    &&& get_decimal(d, "cash_withdrawable"@) is Some
}

/// The message of `stream` tag `t` with data `d`, where it has no sequence
/// in it; `None` where the data does not read.
pub open spec fn plain_message_of(t: Seq<char>, d: JsonValue) -> Option<AlpacaMessage> {
    if t == "authorization"@ {
        match (get_str(d, "status"@), get_str(d, "action"@)) {
            (Some(s), Some(a)) => match authorization_status_of(s@) {
                Some(st) => Some(AlpacaMessage::Authorization { status: st, action: a }),
                None => None,
            },
            _ => None,
        }
    } else if t == "trade_updates"@ {
        match order_event_of(d) {
            Some(oe) => Some(AlpacaMessage::TradeUpdates(oe)),
            None => None,
        }
    } else if t == "account_updates"@ {
        account_update_of(d)
    } else {
        None
    }
}

/// The message in the data of an `account_updates` message.
pub open spec fn account_update_of(d: JsonValue) -> Option<AlpacaMessage> {
    if account_update_readable(d) {
        Some(AlpacaMessage::AccountUpdates {
            id: get_str(d, "id"@).unwrap(),
            created_at: get_str(d, "created_at"@).unwrap(),
            updated_at: get_str(d, "updated_at"@).unwrap(),
            deleted_at: get_opt_str(d, "deleted_at"@).unwrap(),
            status: get_str(d, "status"@).unwrap(),
            currency: get_str(d, "currency"@).unwrap(),
            cash: get_decimal(d, "cash"@).unwrap(),
            cash_withdrawable: get_decimal(d, "cash_withdrawable"@).unwrap(),
        })
    } else {
        None
    }
}

/// `r` is what the JSON tree `j` decodes to: the `stream` member selects the
/// message, and the `data` member holds its fields. A tree that has no
/// message's shape is `UnrecognizedMessage`.
pub open spec fn decodes(j: JsonValue, r: Result<AlpacaMessage, DecodeError>) -> bool {
    match (get_str(j, "stream"@), field(j, "data"@)) {
        (Some(t), Some(d)) => if t@ == "listening"@ {
            match field(d, "streams"@) {
                Some(s) => match strings_of(s) {
                    Some(ss) => r matches Ok(AlpacaMessage::Listening { streams }) && streams@ == ss,
                    None => r == Err::<AlpacaMessage, DecodeError>(DecodeError::UnrecognizedMessage),
                },
                None => r == Err::<AlpacaMessage, DecodeError>(DecodeError::UnrecognizedMessage),
            }
        } else {
            match plain_message_of(t@, d) {
                Some(m) => r == Ok::<AlpacaMessage, DecodeError>(m),
                None => r == Err::<AlpacaMessage, DecodeError>(DecodeError::UnrecognizedMessage),
            }
        },
        _ => r == Err::<AlpacaMessage, DecodeError>(DecodeError::UnrecognizedMessage),
    }
}

/// A string of the library's own holding the characters of `lit`.
fn text(lit: &str) -> (r: String)
    ensures
        r@ == lit@,
{
    String::from_str(lit)
}

/// The array of the strings `ss`, in order.
pub fn strings_to_json(ss: &Vec<String>) -> (j: JsonValue)
    ensures
        strings_json(j, ss@),
{
    let mut a: Vec<JsonValue> = Vec::new();
    let n = ss.len();
    let mut i: usize = 0;
    while i < n
        invariant
            n == ss@.len(),
            i <= n,
            a@.len() == i,
            forall|k: int| 0 <= k < i ==> a@[k] == JsonValue::Str(#[trigger] ss@[k]),
        decreases n - i,
    {
        a.push(JsonValue::Str(ss[i].clone()));
        i = i + 1;
    }
    JsonValue::Array(a)
}

/// The strings of an array of strings.
pub fn read_strings(j: &JsonValue) -> (r: Option<Vec<String>>)
    ensures
        match strings_of(*j) {
            Some(ss) => r matches Some(v) && v@ == ss,
            None => r is None,
        },
{
    match j {
        JsonValue::Array(a) => {
            let mut v: Vec<String> = Vec::new();
            let n = a.len();
            let mut i: usize = 0;
            while i < n
                invariant
                    n == a@.len(),
                    i <= n,
                    v@.len() == i,
                    *j == JsonValue::Array(*a),
                    forall|k: int| 0 <= k < i ==> (#[trigger] a@[k]) is Str && v@[k] == a@[k]->Str_0,
                decreases n - i,
            {
                match &a[i] {
                    JsonValue::Str(s) => v.push(s.clone()),
                    _ => {
                        assert(!(a@[i as int] is Str));
                        return None;
                    },
                }
                i = i + 1;
            }
            assert(v@ =~= Seq::new(a@.len(), |k: int| a@[k]->Str_0));
            Some(v)
        },
        _ => None,
    }
}

fn envelope(tag: &str, data: JsonValue) -> (j: JsonValue)
    ensures
        action_envelope(j, tag@, data),
        field(j, "data"@) == Some(data),
{
    let mut e: Vec<(String, JsonValue)> = Vec::new();
    e.push((text("action"), JsonValue::Str(text(tag))));
    e.push((text("data"), data));
    proof {
        reveal_strlit("action");
        reveal_strlit("data");
        assert(e@.drop_first()[0] == e@[1]);
        assert("action"@.len() == 6 && "data"@.len() == 4);
        assert(e@[0].0@ == "action"@);
        assert(member(e@.drop_first(), "data"@) == Some(data));
    }
    JsonValue::Object(e)
}

/// The channels of an encoded `listen` action, echoed back by the server
/// under the `listening` stream, decode to the same channels in the same
/// order.
pub proof fn lemma_listen_round_trip(
    streams: Vec<String>,
    j: JsonValue,
    echo: JsonValue,
    r: Result<AlpacaMessage, DecodeError>,
)
    requires
        action_json(AlpacaAction::Listen { streams }, j),
        get_str(echo, "stream"@) matches Some(t) && t@ == "listening"@,
        field(echo, "data"@) == field(j, "data"@),
        decodes(echo, r),
    ensures
        r matches Ok(AlpacaMessage::Listening { streams: echoed }) && echoed@ == streams@,
{
    reveal_strlit("action");
    reveal_strlit("data");
    let e = j->Object_0;
    assert("action"@.len() == 6 && "data"@.len() == 4);
    assert(e@.drop_first()[0] == e@[1]);
    assert(member(e@.drop_first(), "data"@) == Some(e@[1].1));
    let d = field(j, "data"@).unwrap();
    let s = field(d, "streams"@).unwrap();
    let a = s->Array_0;
    assert(field(d, "streams"@) == Some(s));
    assert forall|i: int| 0 <= i < a@.len() implies (#[trigger] a@[i]) is Str by {
        assert(a@[i] == JsonValue::Str(streams@[i]));
    }
    assert(Seq::new(a@.len(), |i: int| a@[i]->Str_0) =~= streams@);
}

/// A message whose `stream` tag names none of the protocol's streams does not
/// decode: it is `UnrecognizedMessage`, whatever its data.
pub proof fn lemma_unknown_stream(j: JsonValue, r: Result<AlpacaMessage, DecodeError>)
    requires
        get_str(j, "stream"@) matches Some(t) && t@ != "authorization"@ && t@ != "listening"@
            && t@ != "trade_updates"@ && t@ != "account_updates"@,
        decodes(j, r),
    ensures
        r == Err::<AlpacaMessage, DecodeError>(DecodeError::UnrecognizedMessage),
{
}

/// The tree of a `listen` action for the channels `streams`.
pub fn listen_json(streams: &Vec<String>) -> (j: JsonValue)
    ensures
        action_json(AlpacaAction::Listen { streams: *streams }, j),
{
    let mut d: Vec<(String, JsonValue)> = Vec::new();
    d.push((text("streams"), strings_to_json(streams)));
    envelope("listen", JsonValue::Object(d))
}

/// The tree of an `authenticate` action with the given credentials.
pub fn authenticate_json(key_id: &String, secret_key: &String) -> (j: JsonValue)
    ensures
        action_json(AlpacaAction::Authenticate { key_id: *key_id, secret_key: *secret_key }, j),
{
    let mut d: Vec<(String, JsonValue)> = Vec::new();
    d.push((text("key_id"), JsonValue::Str(key_id.clone())));
    d.push((text("secret_key"), JsonValue::Str(secret_key.clone())));
    envelope("authenticate", JsonValue::Object(d))
}

/// The wire text of a `listen` action for the channels `streams`.
pub fn encode_listen(streams: &Vec<String>) -> (r: String)
    ensures
        action_text(AlpacaAction::Listen { streams: *streams }, r@),
{
    print_json(&listen_json(streams))
}

/// The wire text of an `authenticate` action with the given credentials.
pub fn encode_authenticate(key_id: &String, secret_key: &String) -> (r: String)
    ensures
        action_text(AlpacaAction::Authenticate { key_id: *key_id, secret_key: *secret_key }, r@),
{
    print_json(&authenticate_json(key_id, secret_key))
}

impl AlpacaAction {
    /// The JSON tree of the action.
    pub fn to_json(&self) -> (j: JsonValue)
        ensures
            action_json(*self, j),
    {
        match self {
            AlpacaAction::Listen { streams } => listen_json(streams),
            AlpacaAction::Authenticate { key_id, secret_key } => authenticate_json(key_id, secret_key),
        }
    }

    /// The text of the action on the wire.
    pub fn encode(&self) -> (r: String)
        ensures
            action_text(*self, r@),
    {
        print_json(&self.to_json())
    }
}

fn read_authorization_status(t: &String) -> (r: Option<AuthorizationStatus>)
    ensures
        r == authorization_status_of(t@),
{
    if text_is(t, "authorized") {
        Some(AuthorizationStatus::Authorized)
    } else if text_is(t, "unauthorized") {
        Some(AuthorizationStatus::Unauthorized)
    } else {
        None
    }
}

fn read_fill(d: &JsonValue) -> (r: Option<(Decimal, Timestamp, i64, i64)>)
    ensures
        r == fill_fields(*d),
{
    match (read_decimal(d, "price"), read_timestamp(d, "timestamp"), read_i64_text(d, "qty"), read_i64_text(d, "position_qty")) {
        (Some(p), Some(ts), Some(q), Some(pq)) => Some((p, ts, q, pq)),
        _ => None,
    }
}

impl Event {
    /// Reads the event that the `event` member of `d` names, with its fields.
    pub fn from_json(d: &JsonValue) -> (r: Option<Event>)
        ensures
            r == event_of(*d),
    {
        let t = match read_str(d, "event") {
            Some(t) => t,
            None => return None,
        };
        if text_is(&t, "calculated") {
            Some(Event::Calculated)
        } else if text_is(&t, "canceled") {
            match read_timestamp(d, "timestamp") {
                Some(ts) => Some(Event::Canceled { timestamp: ts }),
                None => None,
            }
        } else if text_is(&t, "done_for_day") {
            Some(Event::DoneForDay)
        } else if text_is(&t, "expired") {
            match read_timestamp(d, "timestamp") {
                Some(ts) => Some(Event::Expired { timestamp: ts }),
                None => None,
            }
        } else if text_is(&t, "fill") {
            match read_fill(d) {
                Some((p, ts, q, pq)) => Some(Event::Fill { price: p, timestamp: ts, qty: q, position_qty: pq }),
                None => None,
            }
        } else if text_is(&t, "new") {
            Some(Event::New)
        } else if text_is(&t, "order_cancel_rejected") {
            Some(Event::OrderCancelRejected)
        } else if text_is(&t, "order_replace_rejected") {
            Some(Event::OrderReplaceRejected)
        } else if text_is(&t, "partial_fill") {
            match read_fill(d) {
                Some((p, ts, q, pq)) => Some(Event::PartialFill { price: p, timestamp: ts, qty: q, position_qty: pq }),
                None => None,
            }
        } else if text_is(&t, "pending_cancel") {
            Some(Event::PendingCancel)
        } else if text_is(&t, "pending_new") {
            Some(Event::PendingNew)
        } else if text_is(&t, "pending_replace") {
            Some(Event::PendingReplace)
        } else if text_is(&t, "rejected") {
            match read_timestamp(d, "timestamp") {
                Some(ts) => Some(Event::Rejected { timestamp: ts }),
                None => None,
            }
        } else if text_is(&t, "replaced") {
            match read_timestamp(d, "timestamp") {
                Some(ts) => Some(Event::Replaced { timestamp: ts }),
                None => None,
            }
        } else if text_is(&t, "stopped") {
            Some(Event::Stopped)
        } else if text_is(&t, "suspended") {
            Some(Event::Suspended)
        } else {
            None
        }
    }
}

impl OrderEvent {
    /// Reads the event and the order snapshot out of the data of a
    /// `trade_updates` message.
    pub fn from_json(d: &JsonValue) -> (r: Option<OrderEvent>)
        ensures
            r == order_event_of(*d),
    {
        let event = match Event::from_json(d) {
            Some(e) => e,
            None => return None,
        };
        match get_field(d, "order") {
            Some(o) => match Order::from_json(o) {
                Some(order) => Some(OrderEvent { event, order }),
                None => None,
            },
            None => None,
        }
    }
}

fn read_account_update(d: &JsonValue) -> (r: Option<AlpacaMessage>)
    ensures
        r == account_update_of(*d),
{
    let id = match read_str(d, "id") { Some(x) => x, None => return None };
    let created_at = match read_str(d, "created_at") { Some(x) => x, None => return None };
    let updated_at = match read_str(d, "updated_at") { Some(x) => x, None => return None };
    let deleted_at = match read_opt_str(d, "deleted_at") { Some(x) => x, None => return None };
    let status = match read_str(d, "status") { Some(x) => x, None => return None };
    let currency = match read_str(d, "currency") { Some(x) => x, None => return None };
    let cash = match read_decimal(d, "cash") { Some(x) => x, None => return None };
    let cash_withdrawable = match read_decimal(d, "cash_withdrawable") { Some(x) => x, None => return None };
    Some(AlpacaMessage::AccountUpdates {
        id,
        created_at,
        updated_at,
        deleted_at,
        status,
        currency,
        cash,
        cash_withdrawable,
    })
}

impl AlpacaMessage {
    /// Decodes a JSON tree into a message.
    pub fn from_json(j: &JsonValue) -> (r: Result<AlpacaMessage, DecodeError>)
        ensures
            decodes(*j, r),
    {
        let t = match read_str(j, "stream") {
            Some(t) => t,
            None => return Err(DecodeError::UnrecognizedMessage),
        };
        let d = match get_field(j, "data") {
            Some(d) => d,
            None => return Err(DecodeError::UnrecognizedMessage),
        };
        proof {
            reveal_strlit("account_updates");
            reveal_strlit("authorization");
            reveal_strlit("trade_updates");
            reveal_strlit("listening");
        }
        if text_is(&t, "listening") {
            match get_field(d, "streams") {
                Some(s) => match read_strings(s) {
                    Some(v) => Ok(AlpacaMessage::Listening { streams: v }),
                    None => Err(DecodeError::UnrecognizedMessage),
                },
                None => Err(DecodeError::UnrecognizedMessage),
            }
        } else if text_is(&t, "authorization") {
            match (read_str(d, "status"), read_str(d, "action")) {
                (Some(s), Some(a)) => match read_authorization_status(&s) {
                    Some(st) => Ok(AlpacaMessage::Authorization { status: st, action: a }),
                    None => Err(DecodeError::UnrecognizedMessage),
                },
                _ => Err(DecodeError::UnrecognizedMessage),
            }
        } else if text_is(&t, "trade_updates") {
            match OrderEvent::from_json(d) {
                Some(oe) => Ok(AlpacaMessage::TradeUpdates(oe)),
                None => Err(DecodeError::UnrecognizedMessage),
            }
        } else if text_is(&t, "account_updates") {
            match read_account_update(d) {
                Some(m) => Ok(m),
                None => Err(DecodeError::UnrecognizedMessage),
            }
        } else {
            Err(DecodeError::UnrecognizedMessage)
        }
    }

    /// Decodes the text of a frame: `Malformed` where it is not one JSON
    /// value, else as the tree decodes.
    pub fn decode(text: &str) -> (r: Result<AlpacaMessage, DecodeError>)
        ensures
            match json_of_text(text@) {
                Some(j) => decodes(j, r),
                None => r == Err::<AlpacaMessage, DecodeError>(DecodeError::Malformed),
            },
    {
        match parse_text(text) {
            Some(j) => AlpacaMessage::from_json(&j),
            None => Err(DecodeError::Malformed),
        }
    }

    /// Decodes the bytes of a binary frame, as a text frame decodes.
    pub fn decode_bytes(bytes: &[u8]) -> (r: Result<AlpacaMessage, DecodeError>)
        ensures
            match json_of_bytes(bytes@) {
                Some(j) => decodes(j, r),
                None => r == Err::<AlpacaMessage, DecodeError>(DecodeError::Malformed),
            },
    {
        match parse_bytes(bytes) {
            Some(j) => AlpacaMessage::from_json(&j),
            None => Err(DecodeError::Malformed),
        }
    }
}

} // verus!
