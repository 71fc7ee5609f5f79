use agent_core::codec::{decode, read_lesson, read_real, read_text, read_whole, DecodeError, LessonData, Request};
use agent_core::json::{find_member, parse, same_text, Json, Numeral};
use agent_core::scalar::Scalar;

fn num(x: f64) -> Scalar {
    Scalar::from_bits(x.to_bits())
}

fn text(s: &str) -> Json {
    Json::Text(s.to_string())
}

fn record(members: Vec<(&str, Json)>) -> Json {
    Json::Record(members.into_iter().map(|(k, v)| (k.to_string(), v)).collect())
}

fn bare(op: &str) -> Request {
    Request {
        op: op.to_string(),
        agent_id: None,
        context: None,
        claim: None,
        frequency: None,
        amplitude: None,
        concept: None,
        delta: None,
        class_id: None,
        content: None,
        child_id: None,
        student_id: None,
        lesson_data: None,
    }
}

#[test]
fn parse_copies_every_kind_of_value() {
    let tree = parse("{\"n\": null, \"b\": true, \"i\": 7, \"m\": -3, \"x\": 2.5, \"s\": \"hi\", \"l\": [1, \"a\"], \"o\": {\"k\": false}}")
        .expect("a document");
    let members = match tree {
        Json::Record(members) => members,
        other => panic!("no record: {:?}", other),
    };
    assert_eq!(find_member(&members, "n"), Some(&Json::Null));
    assert_eq!(find_member(&members, "b"), Some(&Json::Flag(true)));
    assert_eq!(
        find_member(&members, "i"),
        Some(&Json::Number(Numeral { real: Some(num(7.0)), whole: Some(7) }))
    );
    assert_eq!(
        find_member(&members, "m"),
        Some(&Json::Number(Numeral { real: Some(num(-3.0)), whole: None }))
    );
    assert_eq!(
        find_member(&members, "x"),
        Some(&Json::Number(Numeral { real: Some(num(2.5)), whole: None }))
    );
    assert_eq!(find_member(&members, "s"), Some(&text("hi")));
    assert_eq!(
        find_member(&members, "l"),
        Some(&Json::List(vec![Json::Number(Numeral { real: Some(num(1.0)), whole: Some(1) }), text("a")]))
    );
    assert_eq!(find_member(&members, "o"), Some(&record(vec![("k", Json::Flag(false))])));
    assert_eq!(find_member(&members, "absent"), None);
}

#[test]
fn parse_fails_on_text_that_is_no_document() {
    assert_eq!(parse(""), None);
    assert_eq!(parse("{"), None);
    assert_eq!(parse("{\"op\": }"), None);
    assert_eq!(parse("not json"), None);
    assert_eq!(parse("{\"op\": \"x\"} trailing"), None);
    assert_eq!(parse("  \"scalar\"  "), Some(text("scalar")));
}

#[test]
fn same_text_compares_characters() {
    assert!(same_text("", ""));
    assert!(same_text("op", "op"));
    assert!(!same_text("op", "oq"));
    assert!(!same_text("op", "ops"));
    assert!(same_text("\u{e9}t\u{e9}", "\u{e9}t\u{e9}"));
    assert!(!same_text("\u{e9}", "e"));
}

#[test]
fn find_member_takes_the_first_of_that_name() {
    let members = vec![
        ("a".to_string(), Json::Flag(true)),
        ("b".to_string(), Json::Null),
        ("a".to_string(), Json::Flag(false)),
    ];
    assert_eq!(find_member(&members, "a"), Some(&Json::Flag(true)));
    assert_eq!(find_member(&members, "b"), Some(&Json::Null));
    assert_eq!(find_member(&members, "c"), None);
    assert_eq!(find_member(&Vec::new(), "a"), None);
}

#[test]
fn readers_tell_absent_from_mismatched() {
    let members = vec![
        ("t".to_string(), text("v")),
        ("z".to_string(), Json::Null),
        ("r".to_string(), Json::Number(Numeral { real: Some(num(0.5)), whole: None })),
        ("w".to_string(), Json::Number(Numeral { real: Some(num(9.0)), whole: Some(9) })),
        ("odd".to_string(), Json::Number(Numeral { real: None, whole: None })),
    ];
    assert_eq!(read_text(&members, "t"), Ok(Some("v".to_string())));
    assert_eq!(read_text(&members, "z"), Ok(None));
    assert_eq!(read_text(&members, "gone"), Ok(None));
    assert_eq!(read_text(&members, "r"), Err(DecodeError::Mismatch));
    assert_eq!(read_real(&members, "r"), Ok(Some(num(0.5))));
    assert_eq!(read_real(&members, "w"), Ok(Some(num(9.0))));
    assert_eq!(read_real(&members, "z"), Ok(None));
    assert_eq!(read_real(&members, "gone"), Ok(None));
    assert_eq!(read_real(&members, "t"), Err(DecodeError::Mismatch));
    assert_eq!(read_real(&members, "odd"), Err(DecodeError::Mismatch));
    assert_eq!(read_whole(&members, "w"), Ok(Some(9)));
    assert_eq!(read_whole(&members, "r"), Err(DecodeError::Mismatch));
    assert_eq!(read_whole(&members, "t"), Err(DecodeError::Mismatch));
    assert_eq!(read_whole(&members, "z"), Ok(None));
    assert_eq!(read_whole(&members, "gone"), Ok(None));
}

#[test]
fn a_lesson_needs_all_three_parts() {
    let whole = |n: u64| Json::Number(Numeral { real: Some(num(n as f64)), whole: Some(n) });
    let full = record(vec![("concept", text("light")), ("difficulty", whole(2)), ("time_spent", whole(301))]);
    let members = vec![
        ("full".to_string(), full),
        ("short".to_string(), record(vec![("concept", text("light")), ("difficulty", whole(2))])),
        (
            "late".to_string(),
            record(vec![
                ("concept", text("light")),
                ("difficulty", whole(2)),
                ("time_spent", Json::Number(Numeral { real: Some(num(1.5)), whole: None })),
            ]),
        ),
        ("flat".to_string(), text("lesson")),
        ("null".to_string(), Json::Null),
    ];
    assert_eq!(
        read_lesson(&members, "full"),
        Ok(Some(LessonData { concept: "light".to_string(), difficulty: num(2.0), time_spent: 301 }))
    );
    assert_eq!(read_lesson(&members, "short"), Err(DecodeError::Mismatch));
    assert_eq!(read_lesson(&members, "late"), Err(DecodeError::Mismatch));
    assert_eq!(read_lesson(&members, "flat"), Err(DecodeError::Mismatch));
    assert_eq!(read_lesson(&members, "null"), Ok(None));
    assert_eq!(read_lesson(&members, "gone"), Ok(None));
}

#[test]
fn a_request_needs_only_its_operation() {
    assert_eq!(Request::from_json(&record(vec![("op", text("anything"))])), Ok(bare("anything")));
    assert_eq!(decode(b"{\"op\": \"anything\"}"), Ok(bare("anything")));
    assert_eq!(decode(b"{\"op\": \"\"}"), Ok(bare("")));
}

#[test]
fn a_request_without_operation_is_none() {
    assert_eq!(decode(b"{}"), Err(DecodeError::MissingOperation));
    assert_eq!(decode(b"{\"op\": null}"), Err(DecodeError::MissingOperation));
    assert_eq!(decode(b"{\"claim\": \"x\"}"), Err(DecodeError::MissingOperation));
    assert_eq!(decode(b"{\"op\": 5}"), Err(DecodeError::Mismatch));
    assert_eq!(Request::from_json(&record(vec![])), Err(DecodeError::MissingOperation));
}

#[test]
fn a_document_that_is_no_object_is_no_request() {
    assert_eq!(decode(b"[]"), Err(DecodeError::NotAnObject));
    assert_eq!(decode(b"\"op\""), Err(DecodeError::NotAnObject));
    assert_eq!(decode(b"12"), Err(DecodeError::NotAnObject));
    assert_eq!(decode(b"null"), Err(DecodeError::NotAnObject));
    assert_eq!(Request::from_json(&Json::List(vec![])), Err(DecodeError::NotAnObject));
    assert_eq!(Request::from_json(&Json::Flag(true)), Err(DecodeError::NotAnObject));
}

#[test]
fn bytes_that_are_no_document_are_a_syntax_error() {
    assert_eq!(decode(b""), Err(DecodeError::Syntax));
    assert_eq!(decode(b"{\"op\": \"x\""), Err(DecodeError::Syntax));
    assert_eq!(decode(b"op=calculate"), Err(DecodeError::Syntax));
    assert_eq!(decode(&[0xff, 0xfe, 0x00]), Err(DecodeError::Syntax));
}

#[test]
fn every_member_is_read() {
    let bytes = b"{\"op\": \"o\", \"agent_id\": \"a\", \"context\": \"c\", \"claim\": \"cl\", \"frequency\": 0, \
        \"amplitude\": 2.0, \"concept\": \"co\", \"delta\": 0.1, \"class_id\": \"k\", \"content\": \"body\", \
        \"child_id\": \"ch\", \"student_id\": \"s\", \
        \"lesson_data\": {\"concept\": \"light\", \"difficulty\": 1.5, \"time_spent\": 400}, \"extra\": [1, 2]}";
    let request = decode(bytes).expect("a request");
    assert_eq!(
        request,
        Request {
            op: "o".to_string(),
            agent_id: Some("a".to_string()),
            context: Some("c".to_string()),
            claim: Some("cl".to_string()),
            frequency: Some(num(0.0)),
            amplitude: Some(num(2.0)),
            concept: Some("co".to_string()),
            delta: Some(num(0.1)),
            class_id: Some("k".to_string()),
            content: Some("body".to_string()),
            child_id: Some("ch".to_string()),
            student_id: Some("s".to_string()),
            lesson_data: Some(LessonData { concept: "light".to_string(), difficulty: num(1.5), time_spent: 400 }),
        }
    );
}

#[test]
fn a_member_of_the_wrong_kind_is_a_mismatch() {
    assert_eq!(decode(b"{\"op\": \"o\", \"claim\": 5}"), Err(DecodeError::Mismatch));
    assert_eq!(decode(b"{\"op\": \"o\", \"frequency\": \"high\"}"), Err(DecodeError::Mismatch));
    assert_eq!(decode(b"{\"op\": \"o\", \"delta\": true}"), Err(DecodeError::Mismatch));
    assert_eq!(decode(b"{\"op\": \"o\", \"lesson_data\": {\"concept\": \"c\"}}"), Err(DecodeError::Mismatch));
    assert_eq!(
        decode(b"{\"op\": \"o\", \"lesson_data\": {\"concept\": \"c\", \"difficulty\": 1, \"time_spent\": -4}}"),
        Err(DecodeError::Mismatch)
    );
    assert_eq!(decode(b"{\"op\": \"o\", \"student_id\": []}"), Err(DecodeError::Mismatch));
}

#[test]
fn a_null_member_is_an_absent_member() {
    assert_eq!(
        decode(b"{\"op\": \"o\", \"claim\": null, \"frequency\": null, \"lesson_data\": null}"),
        Ok(bare("o"))
    );
}

#[test]
fn ill_formed_utf8_is_read_leniently() {
    let mut bytes = b"{\"op\": \"o\", \"claim\": \"a".to_vec();
    bytes.push(0xff);
    bytes.extend_from_slice(b"b\"}");
    let request = decode(&bytes).expect("a request");
    assert_eq!(request.claim, Some("a\u{fffd}b".to_string()));
    assert_eq!(request.op, "o");
}

#[test]
fn well_formed_utf8_is_read_as_it_stands() {
    let request = decode("{\"op\": \"o\", \"claim\": \"caf\u{e9} \u{1F331}\"}".as_bytes()).expect("a request");
    assert_eq!(request.claim, Some("caf\u{e9} \u{1F331}".to_string()));
    let escaped = decode(b"{\"op\": \"o\", \"claim\": \"caf\\u00e9\"}").expect("a request");
    assert_eq!(escaped.claim, Some("caf\u{e9}".to_string()));
}

#[test]
fn decoding_twice_gives_equal_requests() {
    let inputs: [&[u8]; 5] = [
        b"{\"op\": \"measure_resonance\", \"frequency\": 0, \"amplitude\": 2.0, \"context\": \"x\"}",
        b"{\"op\": \"o\", \"lesson_data\": {\"concept\": \"c\", \"difficulty\": 0.3, \"time_spent\": 3}}",
        b"{}",
        b"garbage",
        &[0x7b, 0x22, 0x6f, 0x70, 0x22, 0x3a, 0x22, 0xc3, 0x28, 0x22, 0x7d],
    ];
    for bytes in inputs {
        assert_eq!(decode(bytes), decode(bytes));
    }
}

#[test]
fn numbers_keep_their_value() {
    let request = decode(b"{\"op\": \"o\", \"frequency\": -0.0, \"amplitude\": 1e300, \"delta\": 18446744073709551615}")
        .expect("a request");
    assert_eq!(request.frequency, Some(num(-0.0)));
    assert_eq!(request.amplitude, Some(num(1e300)));
    assert_eq!(request.delta, Some(num(18446744073709551615u64 as f64)));
    assert_eq!(f64::from_bits(request.amplitude.unwrap().bits), 1e300);
}
