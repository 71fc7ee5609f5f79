//! The shape of what leaves an agent: responses and the payloads of graph calls, as documents.
//!
//! The members of a document stand in a fixed order. The host writes the document out as
//! JSON text.

use crate::capability::{Payload, PayloadModel};
use crate::json::{member, members_view, record_view, Json, JsonModel, Numeral};
use crate::response::{Body, BodyModel, Response, ResponseModel, Virtues};
use crate::scalar::Scalar;
use vstd::prelude::*;

verus! {

/// The document of a binary64 quantity.
pub open spec fn real_node(x: Scalar) -> JsonModel {
    JsonModel::Number(Numeral { real: Some(x), whole: None })
}

/// The document of an unsigned integer.
pub open spec fn whole_node(n: u64) -> JsonModel {
    JsonModel::Number(Numeral { real: None, whole: Some(n) })
}

/// The document of a list of binary64 quantities.
pub open spec fn reals_node(xs: Seq<Scalar>) -> JsonModel {
    JsonModel::List(Seq::new(xs.len(), |i: int| real_node(xs[i])))
}

/// The document of the virtues of a child: honesty, curiosity, patience.
pub open spec fn virtues_node(v: Virtues) -> JsonModel {
    JsonModel::Record(
        seq![
            ("honesty"@, real_node(v.honesty)),
            ("curiosity"@, real_node(v.curiosity)),
            ("patience"@, real_node(v.patience)),
        ],
    )
}

/// The document of what a step of a lesson adds to each virtue: curiosity, patience, honesty.
pub open spec fn virtue_deltas_node(v: Virtues) -> JsonModel {
    JsonModel::Record(
        seq![
            ("curiosity"@, real_node(v.curiosity)),
            ("patience"@, real_node(v.patience)),
            ("honesty"@, real_node(v.honesty)),
        ],
    )
}

/// The document of a response. Each agent's response names its members in its own order;
/// `success` and `message` are among them for every agent. The parent's lists no concepts:
/// what the graph answered is the host's to read.
pub open spec fn response_node(response: ResponseModel) -> JsonModel {
    let success = ("success"@, JsonModel::Flag(response.success));
    let message = ("message"@, JsonModel::Text(response.message));
    match response.body {
        BodyModel::Resonance { truth_field_strength, harmonic_coherence, resonance_spectrum } => JsonModel::Record(
            seq![
                success,
                ("truth_field_strength"@, real_node(truth_field_strength)),
                ("harmonic_coherence"@, real_node(harmonic_coherence)),
                ("resonance_spectrum"@, reals_node(resonance_spectrum)),
                message,
            ],
        ),
        BodyModel::ChildProgress { child_id, virtues } => JsonModel::Record(
            seq![
                success,
                ("child_id"@, JsonModel::Text(child_id)),
                ("concepts"@, JsonModel::List(Seq::empty())),
                ("virtues"@, virtues_node(virtues)),
                message,
            ],
        ),
        BodyModel::Mastery { new_mastery, truth_field_strength, harmonic_coherence } => JsonModel::Record(
            seq![
                success,
                ("new_mastery"@, real_node(new_mastery)),
                ("truth_field_strength"@, real_node(truth_field_strength)),
                ("harmonic_coherence"@, real_node(harmonic_coherence)),
                message,
            ],
        ),
        BodyModel::Lesson { lesson_id } => JsonModel::Record(
            seq![success, ("lesson_id"@, JsonModel::Text(lesson_id)), message],
        ),
        BodyModel::Topic { mastery_delta, virtue_deltas } => JsonModel::Record(
            seq![
                success,
                message,
                ("mastery_delta"@, real_node(mastery_delta)),
                ("virtue_deltas"@, virtue_deltas_node(virtue_deltas)),
            ],
        ),
    }
}

/// The document of the payload of a graph call: the name of the operation, the entities, and
/// the time of the invocation.
pub open spec fn payload_node(payload: PayloadModel) -> JsonModel {
    let operation = ("operation"@, JsonModel::Text(payload.operation().name()));
    let timestamp = ("timestamp"@, whole_node(payload.timestamp()));
    match payload {
        PayloadModel::ChildProgress { child_id, .. } => JsonModel::Record(
            seq![operation, ("child_id"@, JsonModel::Text(child_id)), timestamp],
        ),
        PayloadModel::MasteryUpdate {
            concept,
            delta,
            truth_field_strength,
            harmonic_coherence,
            context,
            ..
        } => JsonModel::Record(
            seq![
                operation,
                ("concept"@, JsonModel::Text(concept)),
                ("delta"@, real_node(delta)),
                ("truth_field_strength"@, real_node(truth_field_strength)),
                ("harmonic_coherence"@, real_node(harmonic_coherence)),
                ("context"@, JsonModel::Text(context)),
                timestamp,
            ],
        ),
        PayloadModel::LessonCreation { concept, class_id, content, .. } => JsonModel::Record(
            seq![
                operation,
                ("concept"@, JsonModel::Text(concept)),
                ("class_id"@, JsonModel::Text(class_id)),
                ("content"@, JsonModel::Text(content)),
                timestamp,
            ],
        ),
    }
}

/// The document of every response is an object that says under `success` whether the
/// invocation succeeded and under `message` what its message is.
pub proof fn response_says_success_and_message(response: ResponseModel)
    ensures
        response_node(response) matches JsonModel::Record(members) && {
            &&& member(members, "success"@) == Some(JsonModel::Flag(response.success))
            &&& member(members, "message"@) == Some(JsonModel::Text(response.message))
        },
{
    reveal_with_fuel(member, 6);
    reveal_strlit("success");
    reveal_strlit("message");
    reveal_strlit("truth_field_strength");
    reveal_strlit("harmonic_coherence");
    reveal_strlit("resonance_spectrum");
    reveal_strlit("child_id");
    reveal_strlit("concepts");
    reveal_strlit("virtues");
    reveal_strlit("new_mastery");
    reveal_strlit("lesson_id");
    let members = response_node(response)->Record_0;
    assert("message"@[0] == 'm');
    assert("success"@[0] == 's');
    assert("truth_field_strength"@[0] == 't');
    assert("harmonic_coherence"@[0] == 'h');
    assert("resonance_spectrum"@[0] == 'r');
    assert("child_id"@[0] == 'c');
    assert("concepts"@[0] == 'c');
    assert("virtues"@[0] == 'v');
    assert("new_mastery"@[0] == 'n');
    assert("lesson_id"@[0] == 'l');
    match response.body {
        BodyModel::Resonance { .. } => {
            assert(members.drop_first().drop_first().drop_first().drop_first()[0].0 == "message"@);
        },
        BodyModel::ChildProgress { .. } => {
            assert(members.drop_first().drop_first().drop_first().drop_first()[0].0 == "message"@);
        },
        BodyModel::Mastery { .. } => {
            assert(members.drop_first().drop_first().drop_first().drop_first()[0].0 == "message"@);
        },
        BodyModel::Lesson { .. } => {
            assert(members.drop_first().drop_first()[0].0 == "message"@);
        },
        BodyModel::Topic { .. } => {
            assert(members.drop_first()[0].0 == "message"@);
        },
    }
}

/// The document of a response holds all of it: responses with the same document are the
/// same response, member by member and bit by bit. A reader of the document can lose
/// nothing that the writer had.
pub proof fn response_document_is_faithful(first: ResponseModel, second: ResponseModel)
    requires
        response_node(first) == response_node(second),
    ensures
        first == second,
{
    reveal_strlit("message");
    reveal_strlit("truth_field_strength");
    reveal_strlit("child_id");
    reveal_strlit("new_mastery");
    reveal_strlit("lesson_id");
    assert(response_node(first)->Record_0 == response_node(second)->Record_0);
    match (first.body, second.body) {
        (
            BodyModel::Resonance { resonance_spectrum: xs, .. },
            BodyModel::Resonance { resonance_spectrum: ys, .. },
        ) => {
            let left = reals_node(xs)->List_0;
            let right = reals_node(ys)->List_0;
            assert(left == right);
            assert forall|i: int| 0 <= i < xs.len() implies xs[i] == ys[i] by {
                assert(left[i] == right[i]);
            }
            assert(xs =~= ys);
        },
        (BodyModel::ChildProgress { virtues: v, .. }, BodyModel::ChildProgress { virtues: w, .. }) => {
            assert(virtues_node(v)->Record_0 == virtues_node(w)->Record_0);
        },
        (BodyModel::Topic { virtue_deltas: v, .. }, BodyModel::Topic { virtue_deltas: w, .. }) => {
            assert(virtue_deltas_node(v)->Record_0 == virtue_deltas_node(w)->Record_0);
        },
        _ => {},
    }
}

/// The document of every payload is an object that names under `operation` the operation it
/// serves and gives under `timestamp` the time it was stamped with.
pub proof fn payload_says_operation_and_time(payload: PayloadModel)
    ensures
        payload_node(payload) matches JsonModel::Record(members) && {
            &&& member(members, "operation"@) == Some(JsonModel::Text(payload.operation().name()))
            &&& member(members, "timestamp"@) == Some(whole_node(payload.timestamp()))
        },
{
    reveal_with_fuel(member, 8);
    reveal_strlit("operation");
    reveal_strlit("timestamp");
    reveal_strlit("child_id");
    reveal_strlit("concept");
    reveal_strlit("delta");
    reveal_strlit("truth_field_strength");
    reveal_strlit("harmonic_coherence");
    reveal_strlit("context");
    reveal_strlit("class_id");
    reveal_strlit("content");
    let members = payload_node(payload)->Record_0;
    assert("operation"@[0] == 'o');
    assert("timestamp"@[1] == 'i');
    assert("child_id"@[1] == 'h');
    assert("concept"@[1] == 'o');
    assert("delta"@[1] == 'e');
    assert("truth_field_strength"@[1] == 'r');
    assert("harmonic_coherence"@[1] == 'a');
    assert("context"@[1] == 'o');
    assert("class_id"@[1] == 'l');
    assert("content"@[1] == 'o');
    assert("operation"@[1] == 'p');
    match payload {
        PayloadModel::ChildProgress { .. } => {
            assert(members.drop_first().drop_first()[0].0 == "timestamp"@);
        },
        PayloadModel::MasteryUpdate { .. } => {
            assert(members.drop_first().drop_first().drop_first().drop_first().drop_first().drop_first()[0].0
                == "timestamp"@);
        },
        PayloadModel::LessonCreation { .. } => {
            assert(members.drop_first().drop_first().drop_first().drop_first()[0].0 == "timestamp"@);
        },
    }
}

/// The document of a binary64 quantity.
fn real_json(x: Scalar) -> (r: Json)
    ensures
        r@ == real_node(x),
{
    Json::Number(Numeral { real: Some(x), whole: None })
}

/// The document of a text.
fn text_json(text: &str) -> (r: Json)
    ensures
        r@ == JsonModel::Text(text@),
{
    Json::Text(text.to_owned())
}

/// The document of a list of binary64 quantities.
fn reals_json(xs: &Vec<Scalar>) -> (r: Json)
    ensures
        r@ == reals_node(xs@),
{
    let mut items: Vec<Json> = Vec::new();
    let mut i: usize = 0;
    while i < xs.len()
        invariant
            i <= xs.len(),
            items@.len() == i,
            forall|j: int| 0 <= j < i ==> (#[trigger] items@[j])@ == real_node(xs@[j]),
        decreases xs.len() - i,
    {
        items.push(real_json(xs[i]));
        i = i + 1;
    }
    let r = Json::List(items);
    proof {
        reveal_with_fuel(<Json as View>::view, 2);
        assert(r@->List_0 =~= reals_node(xs@)->List_0);
    }
    r
}

/// The document of an object with the given members.
fn record_json(members: Vec<(String, Json)>) -> (r: Json)
    ensures
        r@ == JsonModel::Record(members_view(members@)),
{
    proof {
        record_view(members);
    }
    Json::Record(members)
}

/// The document of three quantities under three names.
fn triple_json(first: &str, x: Scalar, second: &str, y: Scalar, third: &str, z: Scalar) -> (r: Json)
    ensures
        r@ == JsonModel::Record(seq![(first@, real_node(x)), (second@, real_node(y)), (third@, real_node(z))]),
{
    let mut members: Vec<(String, Json)> = Vec::new();
    members.push((first.to_owned(), real_json(x)));
    members.push((second.to_owned(), real_json(y)));
    members.push((third.to_owned(), real_json(z)));
    let ghost want = seq![(first@, real_node(x)), (second@, real_node(y)), (third@, real_node(z))];
    proof {
        assert(members_view(members@) =~= want);
    }
    record_json(members)
}

impl Response {
    /// The document of the response.
    pub fn to_json(&self) -> (r: Json)
        ensures
            r@ == response_node(self@),
    {
        let mut members: Vec<(String, Json)> = Vec::new();
        members.push(("success".to_owned(), Json::Flag(self.success)));
        match &self.body {
            Body::Resonance { truth_field_strength, harmonic_coherence, resonance_spectrum } => {
                members.push(("truth_field_strength".to_owned(), real_json(*truth_field_strength)));
                members.push(("harmonic_coherence".to_owned(), real_json(*harmonic_coherence)));
                members.push(("resonance_spectrum".to_owned(), reals_json(resonance_spectrum)));
                members.push(("message".to_owned(), text_json(self.message.as_str())));
            },
            Body::ChildProgress { child_id, virtues } => {
                let concepts = Json::List(Vec::new());
                proof {
                    reveal_with_fuel(<Json as View>::view, 2);
                    assert(concepts@->List_0 =~= Seq::<JsonModel>::empty());
                }
                members.push(("child_id".to_owned(), text_json(child_id.as_str())));
                members.push(("concepts".to_owned(), concepts));
                members.push(
                    (
                        "virtues".to_owned(),
                        triple_json(
                            "honesty",
                            virtues.honesty,
                            "curiosity",
                            virtues.curiosity,
                            "patience",
                            virtues.patience,
                        ),
                    ),
                );
                members.push(("message".to_owned(), text_json(self.message.as_str())));
            },
            Body::Mastery { new_mastery, truth_field_strength, harmonic_coherence } => {
                members.push(("new_mastery".to_owned(), real_json(*new_mastery)));
                members.push(("truth_field_strength".to_owned(), real_json(*truth_field_strength)));
                members.push(("harmonic_coherence".to_owned(), real_json(*harmonic_coherence)));
                members.push(("message".to_owned(), text_json(self.message.as_str())));
            },
            Body::Lesson { lesson_id } => {
                members.push(("lesson_id".to_owned(), text_json(lesson_id.as_str())));
                members.push(("message".to_owned(), text_json(self.message.as_str())));
            },
            Body::Topic { mastery_delta, virtue_deltas } => {
                members.push(("message".to_owned(), text_json(self.message.as_str())));
                members.push(("mastery_delta".to_owned(), real_json(*mastery_delta)));
                members.push(
                    (
                        "virtue_deltas".to_owned(),
                        triple_json(
                            "curiosity",
                            virtue_deltas.curiosity,
                            "patience",
                            virtue_deltas.patience,
                            "honesty",
                            virtue_deltas.honesty,
                        ),
                    ),
                );
            },
        }
        proof {
            assert(members_view(members@) =~= response_node(self@)->Record_0);
        }
        record_json(members)
    }
}

impl Payload {
    /// The document of the payload.
    pub fn to_json(&self) -> (r: Json)
        ensures
            r@ == payload_node(self@),
    {
        let mut members: Vec<(String, Json)> = Vec::new();
        members.push(("operation".to_owned(), text_json(self.operation().tag())));
        match self {
            Payload::ChildProgress { child_id, .. } => {
                members.push(("child_id".to_owned(), text_json(child_id.as_str())));
            },
            Payload::MasteryUpdate { concept, delta, truth_field_strength, harmonic_coherence, context, .. } => {
                members.push(("concept".to_owned(), text_json(concept.as_str())));
                members.push(("delta".to_owned(), real_json(*delta)));
                members.push(("truth_field_strength".to_owned(), real_json(*truth_field_strength)));
                members.push(("harmonic_coherence".to_owned(), real_json(*harmonic_coherence)));
                members.push(("context".to_owned(), text_json(context.as_str())));
            },
            Payload::LessonCreation { concept, class_id, content, .. } => {
                members.push(("concept".to_owned(), text_json(concept.as_str())));
                members.push(("class_id".to_owned(), text_json(class_id.as_str())));
                members.push(("content".to_owned(), text_json(content.as_str())));
            },
        }
        members.push(
            ("timestamp".to_owned(), Json::Number(Numeral { real: None, whole: Some(self.timestamp()) })),
        );
        proof {
            assert(members_view(members@) =~= payload_node(self@)->Record_0);
        }
        record_json(members)
    }
}

} // verus!
