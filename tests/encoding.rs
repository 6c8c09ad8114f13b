use czml::{
    Cartesian2Value, Cartesian3Value, Clock, ClockRange, ClockStep, Color, Czml, CzmlString,
    InterpolatableProperty, Number, Packet, Position, Sequence, Serialize, ShadowModeValue, Time,
    TimeInterval, TimeTaggedValue, Token, UnitQuaternionValue,
};

fn n(x: f64) -> Number {
    Number::from_bits(x.to_bits())
}

fn num(x: f64) -> Token {
    Token::Number(n(x))
}

fn key(k: &str) -> Token {
    Token::Key(k.to_string())
}

fn text(s: &str) -> Token {
    Token::Str(s.to_string())
}

fn encode<T: Serialize>(v: &T) -> Vec<Token> {
    let mut out = Vec::new();
    v.serialize(&mut out);
    out
}

fn c3(x: f64, y: f64, z: f64) -> Cartesian3Value {
    Cartesian3Value { x: n(x), y: n(y), z: n(z) }
}

#[test]
fn constant_has_components_only() {
    let s = Sequence::Single(c3(10.0, 11.0, 13.0));
    assert_eq!(
        encode(&s),
        vec![Token::BeginArray, num(10.0), num(11.0), num(13.0), Token::EndArray]
    );
}

#[test]
fn constant_quaternion_has_four_components() {
    let q = UnitQuaternionValue { x: n(0.0), y: n(0.5), z: n(-0.5), w: n(1.0) };
    let out = encode(&Sequence::Single(q));
    assert_eq!(out.len(), 6);
    assert_eq!(out[1..5].to_vec(), vec![num(0.0), num(0.5), num(-0.5), num(1.0)]);
}

#[test]
fn samples_are_flattened() {
    let s = Sequence::Array(vec![
        TimeTaggedValue { time: n(0.0), value: c3(10.0, 11.0, 13.0) },
        TimeTaggedValue { time: n(1.0), value: c3(20.0, 21.0, 23.0) },
    ]);
    assert_eq!(
        encode(&s),
        vec![
            Token::BeginArray,
            num(0.0),
            num(10.0),
            num(11.0),
            num(13.0),
            num(1.0),
            num(20.0),
            num(21.0),
            num(23.0),
            Token::EndArray,
        ]
    );
}

#[test]
fn two_component_samples_take_three_numbers_each() {
    let s = Sequence::Array(vec![
        TimeTaggedValue { time: n(0.0), value: Cartesian2Value { x: n(1.0), y: n(2.0) } },
        TimeTaggedValue { time: n(5.0), value: Cartesian2Value { x: n(3.0), y: n(4.0) } },
        TimeTaggedValue { time: n(9.0), value: Cartesian2Value { x: n(5.0), y: n(6.0) } },
    ]);
    assert_eq!(encode(&s).len(), 2 + 3 * 3);
}

#[test]
fn empty_samples_are_an_empty_array() {
    let s: Sequence<Cartesian3Value> = Sequence::Array(vec![]);
    assert_eq!(encode(&s), vec![Token::BeginArray, Token::EndArray]);
}

#[test]
fn packet_with_only_id() {
    let p = Packet { id: Some("1".to_string()), ..Default::default() };
    assert_eq!(
        encode(&p),
        vec![Token::BeginObject, key("id"), text("1"), Token::EndObject]
    );
}

#[test]
fn bundle_members_sit_beside_cartesian() {
    let bundle = InterpolatableProperty { epoch: Some("test".to_string()), ..Default::default() };
    let with = Position {
        interpolatable_property: Some(bundle),
        reference_frame: None,
        cartesian: Some(Sequence::Single(c3(1.0, 2.0, 3.0))),
        cartographic_radians: None,
    };
    let expected = vec![
        Token::BeginObject,
        key("epoch"),
        text("test"),
        key("interpolationAlgorithm"),
        text("LINEAR"),
        key("interpolationDegree"),
        num(1.0),
        key("forwardExtrapolationType"),
        text("NONE"),
        key("forwardExtrapolationDuration"),
        num(1.0),
        key("backwardExtrapolationType"),
        text("NONE"),
        key("backwardExtrapolationDuration"),
        num(1.0),
        key("cartesian"),
        Token::BeginArray,
        num(1.0),
        num(2.0),
        num(3.0),
        Token::EndArray,
        Token::EndObject,
    ];
    assert_eq!(encode(&with), expected);

    let without = Position { interpolatable_property: None, ..with.clone() };
    let mut rest = vec![Token::BeginObject];
    rest.extend_from_slice(&expected[15..]);
    assert_eq!(encode(&without), rest);
}

#[test]
fn description_literal_and_reference() {
    let lit = CzmlString::StringValue { string: "hello".to_string() };
    assert_eq!(
        encode(&lit),
        vec![Token::BeginObject, key("string"), text("hello"), Token::EndObject]
    );
    let r = CzmlString::ReferenceValue { reference: "other#name".to_string() };
    let out = encode(&r);
    assert_eq!(
        out,
        vec![Token::BeginObject, key("reference"), text("other#name"), Token::EndObject]
    );
    assert!(!out.contains(&key("string")));
}

#[test]
fn interval_text() {
    let i = TimeInterval {
        start: Time::from_timestamp(1404810611, 0).unwrap(),
        stop: Time::from_timestamp(1433646484, 0).unwrap(),
    };
    assert_eq!(i.to_text(), "2014-07-08T09:10:11Z/2015-06-07T03:08:04Z");
    assert_eq!(encode(&i), vec![text("2014-07-08T09:10:11Z/2015-06-07T03:08:04Z")]);
}

#[test]
fn interval_ends_are_not_reordered() {
    let i = TimeInterval {
        start: Time::from_timestamp(1433646484, 0).unwrap(),
        stop: Time::from_timestamp(1404810611, 0).unwrap(),
    };
    assert_eq!(i.to_text(), "2015-06-07T03:08:04Z/2014-07-08T09:10:11Z");
}

#[test]
fn time_text_with_fraction() {
    let t = Time::from_timestamp(0, 500_000_000).unwrap();
    assert_eq!(t.to_text(), "1970-01-01T00:00:00.500Z");
    assert_eq!(t.timestamp(), 0);
    assert_eq!(t.nanosecond(), 500_000_000);
}

#[test]
fn time_out_of_range_is_refused() {
    assert!(Time::from_timestamp(i64::MAX, 0).is_none());
    assert!(Time::from_timestamp(0, 2_000_000_000).is_none());
}

#[test]
fn document_keeps_order_and_duplicates() {
    let mut doc = Czml::new();
    let first = Packet { id: Some("a".to_string()), ..Default::default() };
    let second = Packet { id: Some("b".to_string()), ..Default::default() };
    let third = Packet { id: Some("a".to_string()), name: Some("again".to_string()), ..Default::default() };
    doc.push(first.clone());
    doc.push(second.clone());
    doc.push(third.clone());
    let mut expected = vec![Token::BeginArray];
    expected.extend(encode(&first));
    expected.extend(encode(&second));
    expected.extend(encode(&third));
    expected.push(Token::EndArray);
    assert_eq!(doc.to_tokens(), expected);
    assert_eq!(doc.packets.len(), 3);
}

#[test]
fn empty_document() {
    assert_eq!(Czml::new().to_tokens(), vec![Token::BeginArray, Token::EndArray]);
}

#[test]
fn enumeration_literals() {
    assert_eq!(encode(&ClockRange::Unbounded), vec![text("UNBOUNDED")]);
    assert_eq!(encode(&ClockRange::Clamped), vec![text("CLAMPED")]);
    assert_eq!(encode(&ClockRange::LoopStop), vec![text("LOOP_STOP")]);
    assert_eq!(encode(&ClockStep::TickDependent), vec![text("TICK_DEPENDENT")]);
    assert_eq!(encode(&ClockStep::SystemClockMultiplier), vec![text("SYSTEM_CLOCK_MULTIPLIER")]);
    assert_eq!(encode(&ClockStep::SystemClock), vec![text("SYSTEM_CLOCK")]);
    assert_eq!(encode(&ShadowModeValue::Disabled), vec![text("DISABLED")]);
    assert_eq!(encode(&ShadowModeValue::Enabled), vec![text("ENABLED")]);
    assert_eq!(encode(&ShadowModeValue::CastOnly), vec![text("CAST_ONLY")]);
    assert_eq!(encode(&ShadowModeValue::ReceiveOnly), vec![text("RECEIVE_ONLY")]);
}

#[test]
fn default_clock() {
    let c = Clock::default();
    assert_eq!(
        encode(&c),
        vec![
            Token::BeginObject,
            key("multiplier"),
            num(1.0),
            key("range"),
            text("LOOP_STOP"),
            key("step"),
            text("SYSTEM_CLOCK_MULTIPLIER"),
            Token::EndObject,
        ]
    );
}

#[test]
fn full_clock() {
    let start = Time::from_timestamp(1404810611, 0).unwrap();
    let c = Clock {
        interval: Some(TimeInterval { start, stop: Time::from_timestamp(1433646484, 0).unwrap() }),
        current_time: Some(start),
        multiplier: Some(n(60.0)),
        range: Some(ClockRange::Unbounded),
        step: Some(ClockStep::SystemClockMultiplier),
    };
    assert_eq!(
        encode(&c),
        vec![
            Token::BeginObject,
            key("interval"),
            text("2014-07-08T09:10:11Z/2015-06-07T03:08:04Z"),
            key("currentTime"),
            text("2014-07-08T09:10:11Z"),
            key("multiplier"),
            num(60.0),
            key("range"),
            text("UNBOUNDED"),
            key("step"),
            text("SYSTEM_CLOCK_MULTIPLIER"),
            Token::EndObject,
        ]
    );
}

#[test]
fn default_position() {
    let p = Position::default();
    assert_eq!(p.reference_frame.as_deref(), Some("FIXED"));
    assert!(p.cartesian.is_none());
    assert!(p.cartographic_radians.is_none());
    let b = p.interpolatable_property.unwrap();
    assert_eq!(b.interpolation_algorithm.as_deref(), Some("LINEAR"));
    assert_eq!(b.interpolation_degree, Some(n(1.0)));
    assert!(b.epoch.is_none());
}

#[test]
fn unset_bundle_adds_no_members() {
    let p = Position {
        interpolatable_property: None,
        reference_frame: Some("INERTIAL".to_string()),
        cartesian: None,
        cartographic_radians: None,
    };
    assert_eq!(
        encode(&p),
        vec![Token::BeginObject, key("referenceFrame"), text("INERTIAL"), Token::EndObject]
    );
}

#[test]
fn properties_and_colors() {
    let p = Packet {
        id: Some("x".to_string()),
        properties: Some(vec![("k1".to_string(), "v1".to_string()), ("k2".to_string(), "v2".to_string())]),
        ..Default::default()
    };
    assert_eq!(
        encode(&p),
        vec![
            Token::BeginObject,
            key("id"),
            text("x"),
            key("properties"),
            Token::BeginObject,
            key("k1"),
            text("v1"),
            key("k2"),
            text("v2"),
            Token::EndObject,
            Token::EndObject,
        ]
    );
    let c = Color { interpolatable_property: None, rgba: Some(vec![255, 0, 0, 128]) };
    assert_eq!(
        encode(&c),
        vec![
            Token::BeginObject,
            key("rgba"),
            Token::BeginArray,
            Token::Integer(255),
            Token::Integer(0),
            Token::Integer(0),
            Token::Integer(128),
            Token::EndArray,
            Token::EndObject,
        ]
    );
}
