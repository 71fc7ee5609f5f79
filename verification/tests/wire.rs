use agent_core::capability::Payload;
use agent_core::dispatch::{begin, conclude, Scores};
use agent_core::json::{find_member, parse, Json, Numeral};
use agent_core::operation::{Agent, Failure};
use agent_core::response::{refuse, Body, Response, Virtues};
use agent_core::scalar::Scalar;

fn num(x: f64) -> Scalar {
    Scalar::from_bits(x.to_bits())
}

fn real_json(x: f64) -> Json {
    Json::Number(Numeral { real: Some(num(x)), whole: None })
}

fn text_json(s: &str) -> Json {
    Json::Text(s.to_string())
}

fn record(members: Vec<(&str, Json)>) -> Json {
    Json::Record(members.into_iter().map(|(k, v)| (k.to_string(), v)).collect())
}

/// Writes a document out as the host does: members in their order, numbers by their
/// unsigned reading where they have one.
fn write(tree: &Json, out: &mut String) {
    match tree {
        Json::Null => out.push_str("null"),
        Json::Flag(flag) => out.push_str(if *flag { "true" } else { "false" }),
        Json::Number(Numeral { whole: Some(n), .. }) => out.push_str(&n.to_string()),
        Json::Number(Numeral { real: Some(x), .. }) => {
            out.push_str(&serde_json::to_string(&f64::from_bits(x.bits)).expect("a number"))
        }
        Json::Number(_) => out.push_str("null"),
        Json::Text(text) => out.push_str(&serde_json::to_string(text).expect("a text")),
        Json::List(items) => {
            out.push('[');
            for (i, item) in items.iter().enumerate() {
                if i > 0 {
                    out.push(',');
                }
                write(item, out);
            }
            out.push(']');
        }
        Json::Record(members) => {
            out.push('{');
            for (i, (key, value)) in members.iter().enumerate() {
                if i > 0 {
                    out.push(',');
                }
                out.push_str(&serde_json::to_string(key).expect("a key"));
                out.push(':');
                write(value, out);
            }
            out.push('}');
        }
    }
}

fn written(tree: &Json) -> String {
    let mut out = String::new();
    write(tree, &mut out);
    out
}

fn keys(tree: &Json) -> Vec<&str> {
    match tree {
        Json::Record(members) => members.iter().map(|(k, _)| k.as_str()).collect(),
        other => panic!("no record: {:?}", other),
    }
}

fn at<'a>(tree: &'a Json, key: &str) -> &'a Json {
    match tree {
        Json::Record(members) => find_member(members, key).expect("a member"),
        other => panic!("no record: {:?}", other),
    }
}

fn reading(tree: &Json) -> f64 {
    match tree {
        Json::Number(Numeral { real: Some(x), .. }) => f64::from_bits(x.bits),
        other => panic!("no number: {:?}", other),
    }
}

#[test]
fn a_resonance_response_names_its_members_in_order() {
    let response = Response {
        success: true,
        message: "Resonance measured".to_string(),
        body: Body::Resonance {
            truth_field_strength: num(0.2),
            harmonic_coherence: num(0.5),
            resonance_spectrum: vec![num(0.0), num(1.0)],
        },
    };
    assert_eq!(
        response.to_json(),
        record(vec![
            ("success", Json::Flag(true)),
            ("truth_field_strength", real_json(0.2)),
            ("harmonic_coherence", real_json(0.5)),
            ("resonance_spectrum", Json::List(vec![real_json(0.0), real_json(1.0)])),
            ("message", text_json("Resonance measured")),
        ])
    );
    assert_eq!(
        written(&response.to_json()),
        "{\"success\":true,\"truth_field_strength\":0.2,\"harmonic_coherence\":0.5,\
         \"resonance_spectrum\":[0.0,1.0],\"message\":\"Resonance measured\"}"
    );
}

#[test]
fn every_response_says_success_and_message() {
    for agent in [Agent::ResonanceEngine, Agent::Parent, Agent::Student, Agent::Teacher, Agent::Topic] {
        let tree = refuse(agent, Failure::UnknownOperation).to_json();
        assert_eq!(at(&tree, "success"), &Json::Flag(false));
        assert_eq!(at(&tree, "message"), &text_json("unknown operation"));
        assert_eq!(keys(&tree)[0], "success");
    }
}

#[test]
fn failure_responses_are_written_with_zeros() {
    assert_eq!(
        written(&refuse(Agent::ResonanceEngine, Failure::InvalidInput).to_json()),
        "{\"success\":false,\"truth_field_strength\":0.0,\"harmonic_coherence\":0.0,\
         \"resonance_spectrum\":[],\"message\":\"invalid input format\"}"
    );
    assert_eq!(
        written(&refuse(Agent::Parent, Failure::GraphRead).to_json()),
        "{\"success\":false,\"child_id\":\"\",\"concepts\":[],\
         \"virtues\":{\"honesty\":0.0,\"curiosity\":0.0,\"patience\":0.0},\
         \"message\":\"graph read operation failed\"}"
    );
    assert_eq!(
        written(&refuse(Agent::Student, Failure::GraphWrite).to_json()),
        "{\"success\":false,\"new_mastery\":0.0,\"truth_field_strength\":0.0,\"harmonic_coherence\":0.0,\
         \"message\":\"graph write operation failed\"}"
    );
    assert_eq!(
        written(&refuse(Agent::Teacher, Failure::UnknownOperation).to_json()),
        "{\"success\":false,\"lesson_id\":\"\",\"message\":\"unknown operation\"}"
    );
    assert_eq!(
        written(&refuse(Agent::Topic, Failure::Missing(agent_core::operation::Field::LessonData)).to_json()),
        "{\"success\":false,\"message\":\"missing lesson data\",\"mastery_delta\":0.0,\
         \"virtue_deltas\":{\"curiosity\":0.0,\"patience\":0.0,\"honesty\":0.0}}"
    );
}

#[test]
fn the_other_bodies_name_their_members_in_order() {
    let parent = Response {
        success: true,
        message: "Child progress retrieved".to_string(),
        body: Body::ChildProgress {
            child_id: "k".to_string(),
            virtues: Virtues { curiosity: num(1.0), patience: num(2.0), honesty: num(3.0) },
        },
    };
    assert_eq!(keys(&parent.to_json()), vec!["success", "child_id", "concepts", "virtues", "message"]);
    assert_eq!(
        at(&parent.to_json(), "virtues"),
        &record(vec![("honesty", real_json(3.0)), ("curiosity", real_json(1.0)), ("patience", real_json(2.0))])
    );
    assert_eq!(at(&parent.to_json(), "concepts"), &Json::List(vec![]));
    let student = Response {
        success: true,
        message: "m".to_string(),
        body: Body::Mastery { new_mastery: num(0.1), truth_field_strength: num(0.9), harmonic_coherence: num(0.3) },
    };
    assert_eq!(
        student.to_json(),
        record(vec![
            ("success", Json::Flag(true)),
            ("new_mastery", real_json(0.1)),
            ("truth_field_strength", real_json(0.9)),
            ("harmonic_coherence", real_json(0.3)),
            ("message", text_json("m")),
        ])
    );
    let teacher =
        Response { success: true, message: "m".to_string(), body: Body::Lesson { lesson_id: "pending_graph_id".to_string() } };
    assert_eq!(
        teacher.to_json(),
        record(vec![("success", Json::Flag(true)), ("lesson_id", text_json("pending_graph_id")), ("message", text_json("m"))])
    );
    let topic = Response {
        success: true,
        message: "m".to_string(),
        body: Body::Topic {
            mastery_delta: num(0.2),
            virtue_deltas: Virtues { curiosity: num(0.05), patience: num(0.15), honesty: num(0.1) },
        },
    };
    assert_eq!(
        topic.to_json(),
        record(vec![
            ("success", Json::Flag(true)),
            ("message", text_json("m")),
            ("mastery_delta", real_json(0.2)),
            (
                "virtue_deltas",
                record(vec![("curiosity", real_json(0.05)), ("patience", real_json(0.15)), ("honesty", real_json(0.1))])
            ),
        ])
    );
}

#[test]
fn payloads_carry_operation_entities_and_time() {
    let query = Payload::ChildProgress { child_id: "kid".to_string(), timestamp: 1_700_000_000 };
    assert_eq!(
        written(&query.to_json()),
        "{\"operation\":\"get_child_progress\",\"child_id\":\"kid\",\"timestamp\":1700000000}"
    );
    let update = Payload::MasteryUpdate {
        concept: "osmosis".to_string(),
        delta: num(0.1),
        truth_field_strength: num(0.75),
        harmonic_coherence: num(0.5),
        context: "general_learning".to_string(),
        timestamp: 7,
    };
    assert_eq!(
        written(&update.to_json()),
        "{\"operation\":\"update_mastery\",\"concept\":\"osmosis\",\"delta\":0.1,\"truth_field_strength\":0.75,\
         \"harmonic_coherence\":0.5,\"context\":\"general_learning\",\"timestamp\":7}"
    );
    let creation = Payload::LessonCreation {
        concept: "light".to_string(),
        class_id: "7b".to_string(),
        content: "Leaves \"eat\" light.".to_string(),
        timestamp: u64::MAX,
    };
    assert_eq!(
        creation.to_json(),
        record(vec![
            ("operation", text_json("create_lesson")),
            ("concept", text_json("light")),
            ("class_id", text_json("7b")),
            ("content", text_json("Leaves \"eat\" light.")),
            ("timestamp", Json::Number(Numeral { real: None, whole: Some(u64::MAX) })),
        ])
    );
    for payload in [&query, &update, &creation] {
        let tree = payload.to_json();
        assert_eq!(at(&tree, "operation"), &text_json(payload.operation().tag()));
        assert_eq!(at(&tree, "timestamp"), &Json::Number(Numeral { real: None, whole: Some(payload.timestamp()) }));
    }
}

#[test]
fn a_written_response_reads_back_within_tolerance() {
    let bytes = b"{\"op\": \"calculate_truth_field\", \"claim\": \"Plants convert light into energy\", \
        \"context\": \"Biology ADVANCED study\"}";
    let task = begin(Agent::ResonanceEngine, bytes).expect("a task");
    let mut sides = [Scalar::zero(); 10];
    for (slot, i) in [-5i32, -4, -3, -2, -1, 1, 2, 3, 4, 5].into_iter().enumerate() {
        sides[slot] = num((-((i * i) as f64) / 2.0).exp());
    }
    let scores = Scores {
        strength: num(0.123_456_789_012_345_67),
        coherence: num(1.0 / 3.0),
        sides,
        mastery_delta: Scalar::zero(),
    };
    let response = conclude(task, &scores, true).response;
    let tree = response.to_json();
    let back = parse(&written(&tree)).expect("a document");
    assert_eq!(keys(&back).len(), 5);
    assert_eq!(at(&back, "success"), &Json::Flag(true));
    assert_eq!(at(&back, "message"), &text_json("Truth field calculated"));
    assert!((reading(at(&back, "truth_field_strength")) - 0.123_456_789_012_345_67).abs() <= 1e-9);
    assert!((reading(at(&back, "harmonic_coherence")) - 1.0 / 3.0).abs() <= 1e-9);
    match (at(&back, "resonance_spectrum"), at(&tree, "resonance_spectrum")) {
        (Json::List(read), Json::List(sent)) => {
            assert_eq!(read.len(), 11);
            for (r, s) in read.iter().zip(sent.iter()) {
                assert!((reading(r) - reading(s)).abs() <= 1e-9);
            }
        }
        other => panic!("no lists: {:?}", other),
    }
}

#[test]
fn a_written_failure_reads_back_as_it_was() {
    for agent in [Agent::ResonanceEngine, Agent::Parent, Agent::Student, Agent::Teacher, Agent::Topic] {
        let tree = refuse(agent, Failure::InvalidInput).to_json();
        let back = parse(&written(&tree)).expect("a document");
        assert_eq!(at(&back, "success"), &Json::Flag(false));
        assert_eq!(at(&back, "message"), &text_json("invalid input format"));
        assert_eq!(keys(&back).len(), keys(&tree).len());
    }
}
