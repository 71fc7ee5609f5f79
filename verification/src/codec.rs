//! The wire codec: from the bytes of a request to a [`Request`].

use crate::json::{find_member, json_tree, member, members_view, parse, record_view, Json, JsonModel};
use crate::scalar::Scalar;
use vstd::prelude::*;

verus! {

/// Why bytes hold no request.
#[derive(Clone, Copy, Debug, PartialEq, Eq, Structural)]
pub enum DecodeError {
    /// The parser reads no JSON document out of the text.
    Syntax,
    /// The document is no object.
    NotAnObject,
    /// The object has no member `op`, or a null one.
    MissingOperation,
    /// A member that a request knows holds another kind of value than it may.
    Mismatch,
}

/// What a lesson reports of a submission.
#[derive(Debug, PartialEq)]
pub struct LessonData {
    pub concept: String,
    pub difficulty: Scalar,
    pub time_spent: u64,
}

/// A [`LessonData`] with its text as a sequence of characters.
pub struct LessonModel {
    pub concept: Seq<char>,
    pub difficulty: Scalar,
    pub time_spent: u64,
}

impl View for LessonData {
    type V = LessonModel;

    open spec fn view(&self) -> LessonModel {
        LessonModel { concept: self.concept@, difficulty: self.difficulty, time_spent: self.time_spent }
    }
}

/// A decoded request: the name of an operation, and the members that operations read, each
/// present or not.
#[derive(Debug, PartialEq)]
pub struct Request {
    pub op: String,
    pub agent_id: Option<String>,
    pub context: Option<String>,
    pub claim: Option<String>,
    pub frequency: Option<Scalar>,
    pub amplitude: Option<Scalar>,
    pub concept: Option<String>,
    pub delta: Option<Scalar>,
    pub class_id: Option<String>,
    pub content: Option<String>,
    pub child_id: Option<String>,
    pub student_id: Option<String>,
    pub lesson_data: Option<LessonData>,
}

/// A [`Request`] with its texts as sequences of characters.
pub struct RequestModel {
    pub op: Seq<char>,
    pub agent_id: Option<Seq<char>>,
    pub context: Option<Seq<char>>,
    pub claim: Option<Seq<char>>,
    pub frequency: Option<Scalar>,
    pub amplitude: Option<Scalar>,
    pub concept: Option<Seq<char>>,
    pub delta: Option<Scalar>,
    pub class_id: Option<Seq<char>>,
    pub content: Option<Seq<char>>,
    pub child_id: Option<Seq<char>>,
    pub student_id: Option<Seq<char>>,
    pub lesson_data: Option<LessonModel>,
}

/// The characters of a text that may be absent.
pub open spec fn text_view(text: Option<String>) -> Option<Seq<char>> {
    match text {
        Some(t) => Some(t@),
        None => None,
    }
}

/// The model of a lesson that may be absent.
pub open spec fn lesson_view(lesson: Option<LessonData>) -> Option<LessonModel> {
    match lesson {
        Some(l) => Some(l@),
        None => None,
    }
}

impl View for Request {
    type V = RequestModel;

    open spec fn view(&self) -> RequestModel {
        RequestModel {
            op: self.op@,
            agent_id: text_view(self.agent_id),
            context: text_view(self.context),
            claim: text_view(self.claim),
            frequency: self.frequency,
            amplitude: self.amplitude,
            concept: text_view(self.concept),
            delta: self.delta,
            class_id: text_view(self.class_id),
            content: text_view(self.content),
            child_id: text_view(self.child_id),
            student_id: text_view(self.student_id),
            lesson_data: lesson_view(self.lesson_data),
        }
    }
}

/// The text under `key`: none where the member is absent or null, a mismatch where it holds
/// anything but text.
pub open spec fn text_at(members: Seq<(Seq<char>, JsonModel)>, key: Seq<char>) -> Result<
    Option<Seq<char>>,
    DecodeError,
> {
    match member(members, key) {
        None => Ok(None),
        Some(JsonModel::Null) => Ok(None),
        Some(JsonModel::Text(text)) => Ok(Some(text)),
        Some(_) => Err(DecodeError::Mismatch),
    }
}

/// The binary64 number under `key`: none where the member is absent or null, a mismatch where
/// it holds anything but a number with such a reading.
pub open spec fn real_at(members: Seq<(Seq<char>, JsonModel)>, key: Seq<char>) -> Result<
    Option<Scalar>,
    DecodeError,
> {
    match member(members, key) {
        None => Ok(None),
        Some(JsonModel::Null) => Ok(None),
        Some(JsonModel::Number(n)) => match n.real {
            Some(x) => Ok(Some(x)),
            None => Err(DecodeError::Mismatch),
        },
        Some(_) => Err(DecodeError::Mismatch),
    }
}

/// The unsigned integer under `key`: none where the member is absent or null, a mismatch where
/// it holds anything but a number that is one.
pub open spec fn whole_at(members: Seq<(Seq<char>, JsonModel)>, key: Seq<char>) -> Result<
    Option<u64>,
    DecodeError,
> {
    match member(members, key) {
        None => Ok(None),
        Some(JsonModel::Null) => Ok(None),
        Some(JsonModel::Number(n)) => match n.whole {
            Some(x) => Ok(Some(x)),
            None => Err(DecodeError::Mismatch),
        },
        Some(_) => Err(DecodeError::Mismatch),
    }
}

/// The lesson that the members of an object describe: all three of its parts are owed.
pub open spec fn lesson_of(inner: Seq<(Seq<char>, JsonModel)>) -> Result<Option<LessonModel>, DecodeError> {
    match (text_at(inner, "concept"@), real_at(inner, "difficulty"@), whole_at(inner, "time_spent"@)) {
        (Ok(Some(concept)), Ok(Some(difficulty)), Ok(Some(time_spent))) => Ok(
            Some(LessonModel { concept, difficulty, time_spent }),
        ),
        _ => Err(DecodeError::Mismatch),
    }
}

/// The lesson under `key`: none where the member is absent or null, a mismatch where it is no
/// object or lacks a part.
pub open spec fn lesson_at(members: Seq<(Seq<char>, JsonModel)>, key: Seq<char>) -> Result<
    Option<LessonModel>,
    DecodeError,
> {
    match member(members, key) {
        None => Ok(None),
        Some(JsonModel::Null) => Ok(None),
        Some(JsonModel::Record(inner)) => lesson_of(inner),
        Some(_) => Err(DecodeError::Mismatch),
    }
}

/// Whether one of the optional members of a request holds a value of the wrong kind.
pub open spec fn has_mismatch(m: Seq<(Seq<char>, JsonModel)>) -> bool {
    ||| text_at(m, "agent_id"@) is Err
    ||| text_at(m, "context"@) is Err
    ||| text_at(m, "claim"@) is Err
    ||| real_at(m, "frequency"@) is Err
    ||| real_at(m, "amplitude"@) is Err
    ||| text_at(m, "concept"@) is Err
    ||| real_at(m, "delta"@) is Err
    ||| text_at(m, "class_id"@) is Err
    ||| text_at(m, "content"@) is Err
    ||| text_at(m, "child_id"@) is Err
    ||| text_at(m, "student_id"@) is Err
    ||| lesson_at(m, "lesson_data"@) is Err
}

/// The request that a document holds. It is an object whose member `op` is text; every other
/// member that a request knows is absent, null or of its own kind; members that a request
/// does not know are passed over.
pub open spec fn request_of(tree: JsonModel) -> Result<RequestModel, DecodeError> {
    match tree {
        JsonModel::Record(m) => {
            match text_at(m, "op"@) {
                Err(e) => Err(e),
                Ok(None) => Err(DecodeError::MissingOperation),
                Ok(Some(op)) => if has_mismatch(m) {
                    Err(DecodeError::Mismatch)
                } else {
                    Ok(
                        RequestModel {
                            op,
                            agent_id: text_at(m, "agent_id"@)->Ok_0,
                            context: text_at(m, "context"@)->Ok_0,
                            claim: text_at(m, "claim"@)->Ok_0,
                            frequency: real_at(m, "frequency"@)->Ok_0,
                            amplitude: real_at(m, "amplitude"@)->Ok_0,
                            concept: text_at(m, "concept"@)->Ok_0,
                            delta: real_at(m, "delta"@)->Ok_0,
                            class_id: text_at(m, "class_id"@)->Ok_0,
                            content: text_at(m, "content"@)->Ok_0,
                            child_id: text_at(m, "child_id"@)->Ok_0,
                            student_id: text_at(m, "student_id"@)->Ok_0,
                            lesson_data: lesson_at(m, "lesson_data"@)->Ok_0,
                        },
                    )
                },
            }
        },
        _ => Err(DecodeError::NotAnObject),
    }
}

/// Reads the text under `key`.
pub fn read_text(members: &Vec<(String, Json)>, key: &str) -> (r: Result<Option<String>, DecodeError>)
    ensures
        match r {
            Ok(text) => text_at(members_view(members@), key@) == Ok::<_, DecodeError>(text_view(text)),
            Err(e) => text_at(members_view(members@), key@) == Err::<Option<Seq<char>>, _>(e),
        },
{
    match find_member(members, key) {
        None => Ok(None),
        Some(Json::Null) => Ok(None),
        Some(Json::Text(text)) => Ok(Some(text.clone())),
        Some(_) => Err(DecodeError::Mismatch),
    }
}

/// Reads the binary64 number under `key`.
pub fn read_real(members: &Vec<(String, Json)>, key: &str) -> (r: Result<Option<Scalar>, DecodeError>)
    ensures
        r == real_at(members_view(members@), key@),
{
    match find_member(members, key) {
        None => Ok(None),
        Some(Json::Null) => Ok(None),
        Some(Json::Number(n)) => match n.real {
            Some(x) => Ok(Some(x)),
            None => Err(DecodeError::Mismatch),
        },
        Some(_) => Err(DecodeError::Mismatch),
    }
}

/// Reads the unsigned integer under `key`.
pub fn read_whole(members: &Vec<(String, Json)>, key: &str) -> (r: Result<Option<u64>, DecodeError>)
    ensures
        r == whole_at(members_view(members@), key@),
{
    match find_member(members, key) {
        None => Ok(None),
        Some(Json::Null) => Ok(None),
        Some(Json::Number(n)) => match n.whole {
            Some(x) => Ok(Some(x)),
            None => Err(DecodeError::Mismatch),
        },
        Some(_) => Err(DecodeError::Mismatch),
    }
}

/// Reads the lesson under `key`.
pub fn read_lesson(members: &Vec<(String, Json)>, key: &str) -> (r: Result<
    Option<LessonData>,
    DecodeError,
>)
    ensures
        match r {
            Ok(lesson) => lesson_at(members_view(members@), key@) == Ok::<_, DecodeError>(lesson_view(lesson)),
            Err(e) => lesson_at(members_view(members@), key@) == Err::<Option<LessonModel>, _>(e),
        },
{
    match find_member(members, key) {
        None => Ok(None),
        Some(Json::Null) => Ok(None),
        Some(Json::Record(inner)) => {
            proof {
                record_view(*inner);
            }
            let concept = read_text(inner, "concept");
            let difficulty = read_real(inner, "difficulty");
            let time_spent = read_whole(inner, "time_spent");
            match (concept, difficulty, time_spent) {
                (Ok(Some(concept)), Ok(Some(difficulty)), Ok(Some(time_spent))) => Ok(
                    Some(LessonData { concept, difficulty, time_spent }),
                ),
                _ => Err(DecodeError::Mismatch),
            }
        },
        Some(_) => Err(DecodeError::Mismatch),
    }
}

/// What decoding gave, with the request by its view.
pub open spec fn outcome_view(r: Result<Request, DecodeError>) -> Result<RequestModel, DecodeError> {
    match r {
        Ok(request) => Ok(request@),
        Err(e) => Err(e),
    }
}

impl Request {
    /// Reads a request out of a document.
    pub fn from_json(tree: &Json) -> (r: Result<Request, DecodeError>)
        ensures
            outcome_view(r) == request_of(tree@),
    {
        let members = match tree {
            Json::Record(members) => members,
            _ => {
                return Err(DecodeError::NotAnObject);
            },
        };
        proof {
            record_view(*members);
        }
        let op = match read_text(members, "op") {
            Ok(Some(op)) => op,
            Ok(None) => {
                return Err(DecodeError::MissingOperation);
            },
            Err(e) => {
                return Err(e);
            },
        };
        let agent_id = match read_text(members, "agent_id") {
            Ok(v) => v,
            Err(e) => {
                return Err(e);
            },
        };
        let context = match read_text(members, "context") {
            Ok(v) => v,
            Err(e) => {
                return Err(e);
            },
        };
        let claim = match read_text(members, "claim") {
            Ok(v) => v,
            Err(e) => {
                return Err(e);
            },
        };
        let frequency = match read_real(members, "frequency") {
            Ok(v) => v,
            Err(e) => {
                return Err(e);
            },
        };
        let amplitude = match read_real(members, "amplitude") {
            Ok(v) => v,
            Err(e) => {
                return Err(e);
            },
        };
        let concept = match read_text(members, "concept") {
            Ok(v) => v,
            Err(e) => {
                return Err(e);
            },
        };
        let delta = match read_real(members, "delta") {
            Ok(v) => v,
            Err(e) => {
                return Err(e);
            },
        };
        let class_id = match read_text(members, "class_id") {
            Ok(v) => v,
            Err(e) => {
                return Err(e);
            },
        };
        let content = match read_text(members, "content") {
            Ok(v) => v,
            Err(e) => {
                return Err(e);
            },
        };
        let child_id = match read_text(members, "child_id") {
            Ok(v) => v,
            Err(e) => {
                return Err(e);
            },
        };
        let student_id = match read_text(members, "student_id") {
            Ok(v) => v,
            Err(e) => {
                return Err(e);
            },
        };
        let lesson_data = match read_lesson(members, "lesson_data") {
            Ok(v) => v,
            Err(e) => {
                return Err(e);
            },
        };
        Ok(
            Request {
                op,
                agent_id,
                context,
                claim,
                frequency,
                amplitude,
                concept,
                delta,
                class_id,
                content,
                child_id,
                student_id,
                lesson_data,
            },
        )
    }
}

/// The text that bytes stand for when each ill-formed UTF-8 sequence among them is read as
/// the replacement character.
pub uninterp spec fn utf8_lossy(bytes: Seq<u8>) -> Seq<char>;

/// Calls `String::from_utf8_lossy`, which reads bytes as UTF-8 and puts U+FFFD in place of
/// each ill-formed sequence. The text depends on the bytes alone: the contract gives it a
/// name and claims no more.
#[verifier::external_body]
fn lossy_text(bytes: &[u8]) -> (text: String)
    ensures
        text@ == utf8_lossy(bytes@),
{
    String::from_utf8_lossy(bytes).into_owned()
}

/// The request that bytes hold: that of the document which their text is the notation of.
pub open spec fn decoded(bytes: Seq<u8>) -> Result<RequestModel, DecodeError> {
    match json_tree(utf8_lossy(bytes)) {
        Some(tree) => request_of(tree),
        None => Err(DecodeError::Syntax),
    }
}

/// Decodes the bytes of a request. Ill-formed UTF-8 is read leniently; decoding fails where
/// the text is no JSON document and where the document is no request.
pub fn decode(bytes: &[u8]) -> (r: Result<Request, DecodeError>)
    ensures
        outcome_view(r) == decoded(bytes@),
{
    let text = lossy_text(bytes);
    match parse(text.as_str()) {
        Some(tree) => Request::from_json(&tree),
        None => Err(DecodeError::Syntax),
    }
}

/// Decoding is a function of the bytes: two runs on the same bytes end alike, with requests
/// that agree member by member or with the same error.
pub proof fn decoding_is_deterministic(
    bytes: Seq<u8>,
    first: Result<Request, DecodeError>,
    second: Result<Request, DecodeError>,
)
    requires
        outcome_view(first) == decoded(bytes),
        outcome_view(second) == decoded(bytes),
    ensures
        outcome_view(first) == outcome_view(second),
        first is Ok <==> second is Ok,
{
}

} // verus!
