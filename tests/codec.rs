use typed_interchange::date::{date_from_wire, date_to_wire};
use typed_interchange::duration::{check_span_text, format_duration, parse_duration, Span};
use typed_interchange::schema::{
    decode_event, decode_request, encode_event, encode_request, encode_request_checked, Event, Gift, RequestType, User,
};
use typed_interchange::tree::{DecodeError, Entry, ErrorKind, Expected, Node};
use typed_interchange::values::{
    format_identifier, format_timestamp, format_url, parse_identifier, parse_timestamp,
    parse_url, UniqueId,
};

const USER_ID: &str = "8d234120-0bda-49b2-b7e0-fbd3912f6cbf";

fn text(s: &str) -> Node {
    Node::Str(s.to_string())
}

fn obj(fields: Vec<(&str, Node)>) -> Node {
    Node::Obj(
        fields
            .into_iter()
            .map(|(k, v)| Entry { key: k.to_string(), value: v })
            .collect(),
    )
}

fn gift(id: i64, price: i64, description: &str) -> Node {
    obj(vec![("id", Node::Int(id)), ("price", Node::Int(price)), ("description", text(description))])
}

fn stream_fields(with_url: bool, tariff_duration: &str) -> Node {
    let mut fields = vec![
        ("user_id", text(USER_ID)),
        ("is_private", Node::Bool(false)),
        ("settings", Node::Int(45345)),
    ];
    if with_url {
        fields.push(("shard_url", text("https://n3.example.com/sapi")));
    }
    fields.push((
        "public_tariff",
        obj(vec![
            ("id", Node::Int(1)),
            ("price", Node::Int(100)),
            ("duration", text(tariff_duration)),
            ("description", text("test public tariff")),
        ]),
    ));
    fields.push((
        "private_tariff",
        obj(vec![
            ("client_price", Node::Int(250)),
            ("duration", text("1m")),
            ("description", text("test private tariff")),
        ]),
    ));
    obj(fields)
}

fn request_doc(tag: &str, stream: Node, gifts: Vec<Node>) -> Node {
    obj(vec![
        ("type", text(tag)),
        ("stream", stream),
        ("gifts", Node::List(gifts)),
        (
            "debug",
            obj(vec![("duration", text("234ms")), ("at", text("2019-06-28T08:35:46+00:00"))]),
        ),
    ])
}

fn fixture() -> Node {
    request_doc(
        "success",
        stream_fields(true, "1m"),
        vec![gift(1, 2, "Gift 1"), gift(2, 3, "Gift 2")],
    )
}

fn error_of(doc: &Node) -> DecodeError {
    match decode_request(doc) {
        Ok(_) => panic!("the document decoded"),
        Err(e) => e,
    }
}

#[test]
fn test_1() {
    let request = decode_request(&fixture()).unwrap();
    assert_eq!(request.request_type, RequestType::Success);
    assert_eq!(request.stream.user_id, parse_identifier(USER_ID).unwrap());
    assert_eq!(request.stream.user_id.value, 0x8d234120_0bda_49b2_b7e0_fbd3912f6cbfu128);
    assert_eq!(request.gifts[0], Gift { id: 1, price: 2, description: "Gift 1".to_string() });
    assert_eq!(request.gifts[1], Gift { id: 2, price: 3, description: "Gift 2".to_string() });
    assert_eq!(request.stream.settings, 45345);
    assert!(!request.stream.is_private);
    assert_eq!(request.stream.shard_url.text, "https://n3.example.com/sapi");
    assert_eq!(request.stream.public_tariff.duration, Span::from_secs(60));
    assert_eq!(request.stream.private_tariff.client_price, 250);
    assert_eq!(request.debug.duration, Span::from_nanos(234_000_000));
    assert_eq!(request.debug.at.secs, 1561710946);
    assert_eq!(request.debug.at.nanos, 0);
}

#[test]
fn request_round_trips_through_the_tree() {
    let first = decode_request(&fixture()).unwrap();
    let encoded = encode_request(&first);
    let second = decode_request(&encoded).unwrap();
    assert_eq!(second.request_type, first.request_type);
    assert_eq!(second.stream.user_id, first.stream.user_id);
    assert_eq!(second.stream.shard_url.text, first.stream.shard_url.text);
    assert_eq!(second.stream.public_tariff.duration, first.stream.public_tariff.duration);
    assert_eq!(second.gifts, first.gifts);
    assert_eq!(second.debug.at, first.debug.at);
    assert_eq!(second.debug.duration, first.debug.duration);
}

#[test]
fn encoded_request_uses_canonical_leaves() {
    let request = decode_request(&fixture()).unwrap();
    let encoded = encode_request(&request);
    let Node::Obj(entries) = encoded else { panic!("not an object") };
    assert_eq!(entries[0].key, "type");
    assert!(matches!(&entries[0].value, Node::Str(s) if s == "success"));
    let Node::Obj(stream) = &entries[1].value else { panic!("not an object") };
    assert!(matches!(&stream[0].value, Node::Str(s) if s == USER_ID));
    let Node::Obj(debug) = &entries[3].value else { panic!("not an object") };
    assert!(matches!(&debug[0].value, Node::Str(s) if s == "234ms"));
    assert!(matches!(&debug[1].value, Node::Str(s) if s == "2019-06-28T08:35:46Z"));
}

#[test]
fn unknown_tag_is_invalid() {
    let e = error_of(&request_doc("maybe", stream_fields(true, "1m"), vec![]));
    assert_eq!(e.kind, ErrorKind::InvalidFormat);
    assert_eq!(e.path, "type");
    assert_eq!(e.raw, "maybe");
    assert_eq!(e.expected, Expected::RequestTag);
}

#[test]
fn known_tags_decode() {
    let ok = decode_request(&request_doc("success", stream_fields(true, "1m"), vec![])).unwrap();
    assert_eq!(ok.request_type, RequestType::Success);
    let failed = decode_request(&request_doc("failure", stream_fields(true, "1m"), vec![])).unwrap();
    assert_eq!(failed.request_type, RequestType::Failure);
    assert_eq!(RequestType::Failure.tag(), "failure");
    assert_eq!(RequestType::from_tag("success"), Some(RequestType::Success));
    assert_eq!(RequestType::from_tag("Success"), None);
}

#[test]
fn missing_shard_url_is_named() {
    let e = error_of(&request_doc("success", stream_fields(false, "1m"), vec![]));
    assert_eq!(e.kind, ErrorKind::MissingField);
    assert_eq!(e.path, "stream.shard_url");
}

#[test]
fn bad_duration_names_full_path() {
    let e = error_of(&request_doc("success", stream_fields(true, "soon"), vec![]));
    assert_eq!(e.kind, ErrorKind::InvalidFormat);
    assert_eq!(e.path, "stream.public_tariff.duration");
    assert_eq!(e.raw, "soon");
    assert_eq!(e.expected, Expected::Span);
}

#[test]
fn bad_gift_names_its_index() {
    let e = error_of(&request_doc(
        "success",
        stream_fields(true, "1m"),
        vec![gift(1, 2, "a"), gift(2, -1, "b")],
    ));
    assert_eq!(e.kind, ErrorKind::InvalidFormat);
    assert_eq!(e.path, "gifts[1].price");
    assert_eq!(e.expected, Expected::Integer);
}

#[test]
fn wrong_node_kinds_are_invalid() {
    let e = error_of(&Node::List(vec![]));
    assert_eq!(e.kind, ErrorKind::InvalidFormat);
    assert_eq!(e.path, "");
    assert_eq!(e.expected, Expected::Object);
    let doc = obj(vec![("type", Node::Int(1))]);
    let e = error_of(&doc);
    assert_eq!(e.path, "type");
    assert_eq!(e.expected, Expected::Text);
    let e = error_of(&request_doc("success", text("stream"), vec![]));
    assert_eq!(e.path, "stream");
    assert_eq!(e.expected, Expected::Object);
}

#[test]
fn bad_identifier_and_url_and_instant() {
    let mut stream = stream_fields(true, "1m");
    if let Node::Obj(entries) = &mut stream {
        entries[0].value = text("not-an-id");
    }
    let e = error_of(&request_doc("success", stream, vec![]));
    assert_eq!((e.kind, e.path.as_str(), e.raw.as_str()), (ErrorKind::InvalidFormat, "stream.user_id", "not-an-id"));
    let mut stream = stream_fields(true, "1m");
    if let Node::Obj(entries) = &mut stream {
        entries[3].value = text("no scheme");
    }
    let e = error_of(&request_doc("success", stream, vec![]));
    assert_eq!((e.path.as_str(), e.expected), ("stream.shard_url", Expected::Url));
    let doc = obj(vec![
        ("type", text("success")),
        ("stream", stream_fields(true, "1m")),
        ("gifts", Node::List(vec![])),
        ("debug", obj(vec![("duration", text("1s")), ("at", text("yesterday"))])),
    ]);
    let e = error_of(&doc);
    assert_eq!((e.path.as_str(), e.expected), ("debug.at", Expected::Timestamp));
}

#[test]
fn extra_fields_are_ignored() {
    let doc = obj(vec![
        ("extra", Node::Bool(true)),
        ("type", text("failure")),
        ("stream", stream_fields(true, "1m")),
        ("gifts", Node::List(vec![gift(5, 6, "x")])),
        ("debug", obj(vec![("duration", text("1s")), ("at", text("2020-01-01T00:00:00Z"))])),
    ]);
    let r = decode_request(&doc).unwrap();
    assert_eq!(r.gifts.len(), 1);
}

#[test]
fn duration_grammar() {
    assert_eq!(parse_duration("1h30m"), Some(Span::from_nanos(5_400_000_000_000)));
    assert_eq!(parse_duration("1h 30m"), Some(Span::from_nanos(5_400_000_000_000)));
    assert_eq!(parse_duration("500ms"), Some(Span::from_nanos(500_000_000)));
    assert_eq!(parse_duration("45s"), Some(Span::from_secs(45)));
    assert_eq!(parse_duration("3us"), Some(Span::from_nanos(3_000)));
    assert_eq!(parse_duration("3\u{b5}s"), Some(Span::from_nanos(3_000)));
    assert_eq!(parse_duration("7ns"), Some(Span::from_nanos(7)));
    assert_eq!(parse_duration("2days"), Some(Span::from_secs(172_800)));
    assert_eq!(parse_duration("0s"), Some(Span::from_nanos(0)));
    assert_eq!(parse_duration(""), None);
    assert_eq!(parse_duration("h"), None);
    assert_eq!(parse_duration("5x"), None);
    assert_eq!(parse_duration("18446744073709551615ns"), None);
    let largest = format_duration(Span::from_nanos(u64::MAX));
    assert_eq!(largest, "584years 6months 15days 8h 12m 57s 709ms 551us 615ns");
    assert_eq!(parse_duration(&largest), Some(Span::from_nanos(u64::MAX)));
    assert_eq!(parse_duration("5124096h"), None);
    assert_eq!(parse_duration("99999999999999999999999h"), None);
}

#[test]
fn duration_canonical_form() {
    assert_eq!(format_duration(Span::from_nanos(0)), "0s");
    assert_eq!(format_duration(Span::from_secs(5400)), "1h 30m");
    assert_eq!(format_duration(Span::from_nanos(2_500_000_000)), "2s 500ms");
    assert_eq!(format_duration(Span::from_nanos(3_723_004_005_006)), "1h 2m 3s 4ms 5us 6ns");
    assert_eq!(format_duration(Span::from_secs(86400)), "1day");
    assert_eq!(as_nanos_of("90m"), 5_400_000_000_000);
}

fn as_nanos_of(s: &str) -> u64 {
    parse_duration(s).unwrap().as_nanos()
}

#[test]
fn duration_format_is_a_fixed_point() {
    for s in ["90m", "1h30m", "3600s", "1500ms", "0ns", "61s", "1001us"] {
        let once = format_duration(parse_duration(s).unwrap());
        let twice = format_duration(parse_duration(&once).unwrap());
        assert_eq!(once, twice);
    }
    assert_eq!(format_duration(parse_duration("90m").unwrap()), "1h 30m");
}

#[test]
fn date_transform() {
    assert_eq!(date_to_wire("2020-01-01"), "Date: 2020-01-01");
    assert_eq!(date_from_wire("Date: 2020-01-01"), "2020-01-01");
    assert_eq!(date_from_wire("x-Date:y-Date:z"), "x-y-z");
    assert_eq!(date_from_wire("Date:  two"), " two");
    assert_eq!(date_from_wire("no-marker"), "no-marker");
    assert_eq!(date_from_wire("aDate:bDate:c"), "abc");
    assert_eq!(date_from_wire("Date"), "Date");
}

#[test]
fn event_date_is_wrapped() {
    let event = Event { name: "Event 1".to_string(), date: "2020-01-01".to_string() };
    let doc = encode_event(&event);
    let Node::Obj(entries) = &doc else { panic!("not an object") };
    assert_eq!(entries[1].key, "date");
    assert!(matches!(&entries[1].value, Node::Str(s) if s == "Date: 2020-01-01"));
    let back = decode_event(&doc).unwrap();
    assert_eq!(back.name, "Event 1");
    assert_eq!(back.date, "2020-01-01");
    let again = encode_event(&back);
    let Node::Obj(again_entries) = &again else { panic!("not an object") };
    assert!(matches!(&again_entries[1].value, Node::Str(s) if s == "Date: 2020-01-01"));
    let plain = obj(vec![("name", text("e")), ("date", text("no-marker"))]);
    assert_eq!(decode_event(&plain).unwrap().date, "no-marker");
    let e = decode_event(&obj(vec![("name", text("e"))])).unwrap_err();
    assert_eq!((e.kind, e.path.as_str()), (ErrorKind::MissingField, "date"));
}

#[test]
fn identifiers() {
    let id = parse_identifier(USER_ID).unwrap();
    assert_eq!(format_identifier(id), USER_ID);
    let upper = parse_identifier("8D234120-0BDA-49B2-B7E0-FBD3912F6CBF").unwrap();
    assert_eq!(upper, id);
    assert_eq!(format_identifier(UniqueId { value: 1 }), "00000000-0000-0000-0000-000000000001");
    assert_eq!(UniqueId::from_u128(5), UniqueId { value: 5 });
    assert_eq!(parse_identifier("8d234120"), None);
}

#[test]
fn urls() {
    let u = parse_url("HTTPS://Example.com").unwrap();
    assert_eq!(u.text, "https://example.com/");
    assert_eq!(format_url(&u), "https://example.com/");
    assert_eq!(u.as_str(), "https://example.com/");
    assert!(parse_url("not a url").is_none());
}

#[test]
fn timestamps() {
    let t = parse_timestamp("2020-01-01T00:00:00Z").unwrap();
    assert_eq!((t.secs, t.nanos), (1577836800, 0));
    assert_eq!(format_timestamp(t), "2020-01-01T00:00:00Z");
    let shifted = parse_timestamp("2020-01-01T01:00:00.5+01:00").unwrap();
    assert_eq!((shifted.secs, shifted.nanos), (1577836800, 500_000_000));
    assert_eq!(format_timestamp(shifted), "2020-01-01T00:00:00.500Z");
    assert!(parse_timestamp("2020-13-01T00:00:00Z").is_none());
}

#[test]
fn user_round_trips() {
    let user = User {
        name: "John".to_string(),
        email: "johndoe321@gmail.com".to_string(),
        birthdate: "5.06.97".to_string(),
    };
    let entries = user.to_entries();
    assert_eq!(entries[1].key, "email");
    let back = User::from_entries(&entries, "").unwrap();
    assert_eq!(back.name, "John");
    assert_eq!(back.email, "johndoe321@gmail.com");
    assert_eq!(back.birthdate, "5.06.97");
    let e = User::from_entries(&entries[..2].iter().map(|e| Entry { key: e.key.clone(), value: Node::Str(String::new()) }).collect(), "owner").unwrap_err();
    assert_eq!((e.kind, e.path.as_str()), (ErrorKind::MissingField, "owner.birthdate"));
}

#[test]
fn gift_round_trips() {
    let g = Gift { id: 7, price: 0, description: String::new() };
    assert_eq!(Gift::from_entries(&g.to_entries(), "").unwrap(), g);
}

#[test]
fn checked_encoding_refuses_invalid_values() {
    let request = decode_request(&fixture()).unwrap();
    assert!(encode_request_checked(&request).is_some());
    let mut bad_url = request.clone();
    bad_url.stream.shard_url.text = "HTTPS://Example.com".to_string();
    assert!(encode_request_checked(&bad_url).is_none());
    let mut bad_at = request.clone();
    bad_at.debug.at.nanos = 1_000_000_000;
    assert!(encode_request_checked(&bad_at).is_none());
}

#[test]
fn null_values_are_refused() {
    let e = error_of(&obj(vec![("type", Node::Null)]));
    assert_eq!((e.kind, e.path.as_str(), e.expected), (ErrorKind::InvalidFormat, "type", Expected::Text));
    let e = error_of(&request_doc("success", stream_fields(true, "1m"), vec![gift(1, 2, "a"), Node::Null]));
    assert_eq!((e.path.as_str(), e.expected), ("gifts[1]", Expected::Object));
}

#[test]
fn oversized_span_texts_are_refused() {
    assert_eq!(parse_duration("18446744073709551615s 1000000000ns"), None);
    assert_eq!(parse_duration("18446744073709551615s 500ms 500ms"), None);
    assert_eq!(parse_duration("1234567890 1234567890s"), None);
    assert!(!check_span_text("1234567890 1234567890s"));
    assert!(!check_span_text(&"1s".repeat(65)));
    assert!(check_span_text(&"1s".repeat(64)));
    assert!(check_span_text("999999999ns 999999999h"));
    assert!(!check_span_text("1000000000ns"));
    assert!(check_span_text("000000000000001s"));
    let e = error_of(&request_doc("success", stream_fields(true, "18446744073709551615s 500ms 500ms"), vec![]));
    assert_eq!((e.kind, e.path.as_str()), (ErrorKind::InvalidFormat, "stream.public_tariff.duration"));
}

#[test]
fn year_zero_instant() {
    let t = parse_timestamp("0000-01-01T00:00:00Z").unwrap();
    assert_eq!((t.secs, t.nanos), (-62167219200, 0));
    assert_eq!(format_timestamp(t), "0000-01-01T00:00:00Z");
}
