use alpaca::json::JsonValue;
use alpaca::numbers::{Decimal, Timestamp, Uuid};
use alpaca::{
    AlpacaAction, AlpacaMessage, AuthorizationStatus, DecodeError, Event, OrderStatus, OrderType,
    Side, TimeInForce,
};

const ORDER_EVENT: &str = r#"{"stream":"trade_updates","data":{"event":"fill","price":"179.08","timestamp":"2018-02-28T20:38:22Z","qty":"100","position_qty":"100","order":{"id":"61e69015-8549-4bfd-b9c3-01e75843f47d","client_order_id":"eb9e2aaa-f71a-4f51-b5b4-52a6c565dad4","created_at":"2021-03-16T18:38:01.942282Z","updated_at":"2021-03-16T18:38:01.942282Z","submitted_at":"2021-03-16T18:38:01.937734Z","filled_at":null,"expired_at":null,"canceled_at":null,"failed_at":null,"replaced_at":null,"replaced_by":null,"replaces":null,"asset_id":"b0b6dd9d-8b9b-48a9-ba46-b9d54906e415","symbol":"AAPL","asset_class":"us_equity","qty":"100","filled_qty":"100","filled_avg_price":"179.08","order_class":"","order_type":"market","type":"market","side":"buy","time_in_force":"day","limit_price":null,"stop_price":null,"status":"accepted","extended_hours":false,"legs":null,"trail_percent":null,"trail_price":null,"hwm":null}}}"#;

#[test]
fn serde_listen() {
    let serialized = AlpacaAction::Listen {
        streams: vec!["trade_updates".into(), "account_updates".into()],
    }
    .encode();
    assert_eq!(serialized, "{\"action\":\"listen\",\"data\":{\"streams\":[\"trade_updates\",\"account_updates\"]}}");
}

#[test]
fn serde_order_event() {
    let deserialized = AlpacaMessage::decode(ORDER_EVENT);
    assert!(matches!(deserialized, Ok(AlpacaMessage::TradeUpdates(_))));
}

#[test]
fn encode_authenticate_action() {
    let text = AlpacaAction::Authenticate { key_id: "k".into(), secret_key: "s".into() }.encode();
    assert_eq!(text, r#"{"action":"authenticate","data":{"key_id":"k","secret_key":"s"}}"#);
}

#[test]
fn encode_escapes_strings() {
    let text = AlpacaAction::Listen { streams: vec!["a\"b".into()] }.encode();
    assert_eq!(text, r#"{"action":"listen","data":{"streams":["a\"b"]}}"#);
}

#[test]
fn fill_event_reads_numbers_out_of_strings() {
    match AlpacaMessage::decode(ORDER_EVENT) {
        Ok(AlpacaMessage::TradeUpdates(oe)) => {
            assert_eq!(
                oe.event,
                Event::Fill {
                    price: Decimal { mantissa: 17908, scale: 2 },
                    timestamp: Timestamp { seconds: 1519850302, nanos: 0 },
                    qty: 100,
                    position_qty: 100,
                }
            );
            assert_eq!(oe.order.id, Uuid { value: 130132266240624305415292209424184374397 });
            assert_eq!(oe.order.asset_id, Uuid { value: 234893620180948597026643654681515451413 });
            assert_eq!(oe.order.symbol, "AAPL");
            assert_eq!(oe.order.qty, 100);
            assert_eq!(oe.order.filled_qty, 100);
            assert_eq!(oe.order.created_at, Timestamp { seconds: 1615919881, nanos: 942282000 });
            assert_eq!(oe.order.filled_at, None);
            assert_eq!(oe.order.filled_avg_price, Some(Decimal { mantissa: 17908, scale: 2 }));
            assert_eq!(oe.order.order_type, OrderType::Market);
            assert_eq!(oe.order.side, Side::Buy);
            assert_eq!(oe.order.time_in_force, TimeInForce::Day);
            assert_eq!(oe.order.status, OrderStatus::Accepted);
            assert!(!oe.order.extended_hours);
            assert_eq!(oe.order.hwm, None);
        }
        _ => panic!("not a trade update"),
    }
}

#[test]
fn fill_with_non_numeric_price_fails() {
    let json = ORDER_EVENT.replace("\"price\":\"179.08\"", "\"price\":\"abc\"");
    assert!(matches!(AlpacaMessage::decode(&json), Err(DecodeError::UnrecognizedMessage)));
}

#[test]
fn fill_with_non_numeric_qty_fails() {
    let json = ORDER_EVENT.replace("\"position_qty\":\"100\"", "\"position_qty\":\"1x\"");
    assert!(matches!(AlpacaMessage::decode(&json), Err(DecodeError::UnrecognizedMessage)));
}

#[test]
fn unknown_stream_is_unrecognized() {
    let r = AlpacaMessage::decode(r#"{"stream":"unknown_thing","data":{}}"#);
    assert!(matches!(r, Err(DecodeError::UnrecognizedMessage)));
}

#[test]
fn invalid_json_is_malformed() {
    assert!(matches!(AlpacaMessage::decode("{\"stream\":"), Err(DecodeError::Malformed)));
    assert!(matches!(AlpacaMessage::decode_bytes(b"not json"), Err(DecodeError::Malformed)));
}

#[test]
fn listening_echo_recovers_channels_in_order() {
    let action = AlpacaAction::Listen {
        streams: vec!["trade_updates".into(), "account_updates".into()],
    };
    let text = action.encode();
    let echo = text.replace("\"action\":\"listen\"", "\"stream\":\"listening\"");
    match AlpacaMessage::decode(&echo) {
        Ok(AlpacaMessage::Listening { streams }) => {
            assert_eq!(streams, vec!["trade_updates".to_string(), "account_updates".to_string()])
        }
        _ => panic!("not a listening reply"),
    }
}

#[test]
fn authorization_replies_decode() {
    let ok = AlpacaMessage::decode(
        r#"{"stream":"authorization","data":{"status":"authorized","action":"authenticate"}}"#,
    );
    assert!(matches!(
        ok,
        Ok(AlpacaMessage::Authorization { status: AuthorizationStatus::Authorized, ref action }) if action == "authenticate"
    ));
    let refused = AlpacaMessage::decode_bytes(
        br#"{"stream":"authorization","data":{"status":"unauthorized","action":"authenticate"}}"#,
    );
    assert!(matches!(
        refused,
        Ok(AlpacaMessage::Authorization { status: AuthorizationStatus::Unauthorized, .. })
    ));
    let odd = AlpacaMessage::decode(r#"{"stream":"authorization","data":{"status":"maybe","action":"x"}}"#);
    assert!(matches!(odd, Err(DecodeError::UnrecognizedMessage)));
}

#[test]
fn account_update_decodes() {
    let r = AlpacaMessage::decode(
        r#"{"stream":"account_updates","data":{"id":"a","created_at":"c","updated_at":"u","deleted_at":null,"status":"ACTIVE","currency":"USD","cash":"-23140.2","cash_withdrawable":"0"}}"#,
    );
    match r {
        Ok(AlpacaMessage::AccountUpdates { id, deleted_at, currency, cash, cash_withdrawable, .. }) => {
            assert_eq!(id, "a");
            assert_eq!(deleted_at, None);
            assert_eq!(currency, "USD");
            assert_eq!(cash, Decimal { mantissa: -231402, scale: 1 });
            assert_eq!(cash_withdrawable, Decimal { mantissa: 0, scale: 0 });
        }
        _ => panic!("not an account update"),
    }
    let missing_cash = AlpacaMessage::decode(
        r#"{"stream":"account_updates","data":{"id":"a","created_at":"c","updated_at":"u","status":"ACTIVE","currency":"USD","cash_withdrawable":"0"}}"#,
    );
    assert!(matches!(missing_cash, Err(DecodeError::UnrecognizedMessage)));
}

#[test]
fn canceled_event_carries_its_timestamp() {
    let event = || ("event".to_string(), JsonValue::Str("canceled".into()));
    let d = vec![event(), ("timestamp".to_string(), JsonValue::Str("1970-01-01T00:00:01.5Z".into()))];
    assert_eq!(
        Event::from_json(&JsonValue::Object(d)),
        Some(Event::Canceled { timestamp: Timestamp { seconds: 1, nanos: 500000000 } })
    );
    assert_eq!(Event::from_json(&JsonValue::Object(vec![event()])), None);
}

#[test]
fn data_without_stream_tag_is_unrecognized() {
    let j = JsonValue::Object(vec![("data".to_string(), JsonValue::Object(vec![]))]);
    assert!(matches!(AlpacaMessage::from_json(&j), Err(DecodeError::UnrecognizedMessage)));
}
