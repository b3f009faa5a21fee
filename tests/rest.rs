use alpaca::numbers::{from_str, from_str_unsigned, Decimal, Timestamp, Uuid};
use alpaca::rest::{
    AccountConfigurations, AssetClass, Date, GetCalendar, GetOrders, QueryOrderStatus, ReplaceOrder, Sort, SubmitOrder, CancelAllOrders, CancelOrder, ClosePosition, DtbpCheck,
    GetAccount, GetAsset, GetAssets, GetOrder, GetPosition, Method, PatchAccountConfigurations,
    Status, TradeConfirmEmail,
};
use alpaca::{OrderClass, OrderIntent, OrderType, Side, TimeInForce};

#[test]
fn test_default_assetclass() {
    match AssetClass::default() {
        AssetClass::UsEquity => {} // Happy case
    }
}

#[test]
fn test_defaults() {
    match OrderType::default() {
        OrderType::Market => {} // Happy case
        _ => panic!(),
    };
    match TimeInForce::default() {
        TimeInForce::Day => {} // Happy case
        _ => panic!(),
    };
    match OrderClass::default() {
        OrderClass::Simple => {} // Happy case
        _ => panic!(),
    };
    match Side::default() {
        Side::Buy => {} // Happy case
        _ => panic!(),
    };
}

#[test]
fn side_negates() {
    assert_eq!(Side::Buy.neg(), Side::Sell);
    assert_eq!(Side::Sell.neg(), Side::Buy);
}

#[test]
fn asset_requests() {
    let all = GetAssets::new();
    assert_eq!(all.status, Status::Active);
    assert_eq!(all.endpoint(), "assets");
    assert_eq!(all.method(), Method::Get);
    let q = all.query();
    assert_eq!(q, vec![("status".to_string(), "active".to_string()), ("asset_class".to_string(), "us_equity".to_string())]);
    assert_eq!(GetAsset("AAPL".into()).endpoint(), "assets/AAPL");
}

#[test]
fn order_requests() {
    let id = "904837e3-3b76-47ec-b432-046db621571b";
    let get = GetOrder::new(id.into());
    assert_eq!(get.endpoint(), format!("orders/{}", id));
    assert_eq!(get.query(), vec![("nested".to_string(), "false".to_string())]);
    assert_eq!(CancelOrder(id.into()).endpoint(), format!("orders/{}", id));
    assert_eq!(CancelOrder(id.into()).method(), Method::Delete);
    assert_eq!(CancelAllOrders().endpoint(), "orders");
}

#[test]
fn account_and_position_requests() {
    assert_eq!(GetAccount.endpoint(), "account");
    let c = AccountConfigurations::new();
    assert_eq!(c.dtbp_check, DtbpCheck::Entry);
    assert_eq!(c.trade_confirm_email, TradeConfirmEmail::All);
    assert!(!c.suspend_trade && !c.no_shorting);
    let patch = PatchAccountConfigurations(c);
    assert_eq!(patch.method(), Method::Patch);
    assert_eq!(patch.endpoint(), "account/configurations");
    assert_eq!(GetPosition("AAPL".into()).endpoint(), "positions/AAPL");
    assert_eq!(ClosePosition("AAPL".into()).method(), Method::Delete);
}

#[test]
fn order_intent_builder() {
    let oi = OrderIntent::new("V").qty(54).side(Side::Sell).extended_hours(true).time_in_force(TimeInForce::Day);
    assert_eq!(oi.symbol, "V");
    assert_eq!(oi.qty, 54);
    assert_eq!(oi.side, Side::Sell);
    assert!(oi.extended_hours);
    assert_eq!(oi.time_in_force, TimeInForce::Day);
    assert_eq!(oi.order_type, OrderType::Market);
    assert_eq!(oi.client_order_id, None);
    let oi = oi.client_order_id("c1".into()).order_type(OrderType::Limit { limit_price: Decimal { mantissa: 100, scale: 0 } });
    assert_eq!(oi.client_order_id, Some("c1".to_string()));
    assert!(matches!(oi.order_class(OrderClass::Simple).order_type, OrderType::Limit { .. }));
}

#[test]
fn integers_in_strings() {
    assert_eq!(from_str("100"), Some(100));
    assert_eq!(from_str("-42"), Some(-42));
    assert_eq!(from_str("+7"), Some(7));
    assert_eq!(from_str("9223372036854775807"), Some(i64::MAX));
    assert_eq!(from_str("-9223372036854775808"), Some(i64::MIN));
    assert_eq!(from_str("9223372036854775808"), None);
    assert_eq!(from_str(""), None);
    assert_eq!(from_str("-"), None);
    assert_eq!(from_str("1.5"), None);
    assert_eq!(from_str("abc"), None);
    assert_eq!(from_str_unsigned("18446744073709551615"), Some(u64::MAX));
    assert_eq!(from_str_unsigned("18446744073709551616"), None);
    assert_eq!(from_str_unsigned("-1"), None);
    assert_eq!(from_str_unsigned("+3"), Some(3));
}

#[test]
fn decimals_instants_and_uuids() {
    assert_eq!(Decimal::parse("179.08"), Some(Decimal { mantissa: 17908, scale: 2 }));
    assert_eq!(Decimal::parse("abc"), None);
    assert_eq!(Timestamp::parse("2018-02-28T20:38:22Z"), Some(Timestamp { seconds: 1519850302, nanos: 0 }));
    assert_eq!(Timestamp::parse("yesterday"), None);
    assert_eq!(Uuid::parse("00000000-0000-0000-0000-000000000010"), Some(Uuid { value: 16 }));
    assert_eq!(Uuid::parse("xyz"), None);
}

#[test]
fn constructors() {
    let cal1 = GetCalendar::default();
    let cal2 = GetCalendar::new(
        Date { year: 1970, month: 1, day: 2 },
        Date { year: 2029, month: 12, day: 30 },
    );

    let cal1 = cal1
        .start(Date { year: 1970, month: 1, day: 2 })
        .end(Date { year: 2029, month: 12, day: 30 });
    assert_eq!(cal1, cal2);
    assert_eq!(cal1.endpoint(), "calendar");
}

#[test]
fn order_listing_and_placement() {
    let all = GetOrders::new();
    assert_eq!(all.status, QueryOrderStatus::Open);
    assert_eq!(all.limit, 50);
    assert_eq!(all.direction, Sort::Descending);
    assert!(!all.nested && all.after.is_none() && all.until.is_none());
    assert_eq!(all.endpoint(), "orders");
    let submit = SubmitOrder(OrderIntent::new("AAPL"));
    assert_eq!(submit.endpoint(), "orders");
    assert_eq!(submit.method(), Method::Post);
    assert_eq!(submit.body().symbol, "AAPL");
    let replace = ReplaceOrder("abc".into(), OrderIntent::new("AAPL").qty(2));
    assert_eq!(replace.endpoint(), "orders/abc");
    assert_eq!(replace.body().qty, 2);
}
