//! The operation dispatcher.
//!
//! An invocation passes through two states and ends in a third. While decoding, the agent
//! holds bytes; [`begin`] turns them into a [`Task`] or into the response that turns them
//! down. While handling, it holds the task: the host evaluates what [`Task::demand`] asks,
//! makes the call that [`required_call`] names, and [`conclude`] turns the task, the scores
//! and the fate of that call into an [`Outcome`]. With the outcome the invocation has
//! responded: the host makes the calls of the telemetry, whose failures change nothing, and
//! publishes the response.

use crate::capability::{calls_view, CallModel, CapabilityCall, Payload, PayloadModel, Virtue};
use crate::codec::{decode, decoded};
use crate::operation::{Agent, Failure};
use crate::response::{refusal, refuse, Body, BodyModel, Response, ResponseModel, Virtues};
use crate::scalar::{Scalar, ONE_BITS, TENTH_BITS, THREE_TWENTIETHS_BITS, TWENTIETH_BITS};
use crate::task::{task_of, validate, Task, TaskModel};
use vstd::prelude::*;

verus! {

/// The number of samples in a spectrum: one at the centre and five to each side.
pub const SPECTRUM_SAMPLES: usize = 11;

/// What the host evaluated for a task. A task reads the scores that its demand asked for and
/// passes over the others.
#[derive(Clone, Copy, Debug, PartialEq)]
pub struct Scores {
    /// The truth field strength, or the resonance.
    pub strength: Scalar,
    /// The coherence.
    pub coherence: Scalar,
    /// The samples of the spectrum to the sides of the strength: those five to one steps
    /// below it, then those one to five steps above it.
    pub sides: [Scalar; 10],
    /// The mastery that a graded submission adds.
    pub mastery_delta: Scalar,
}

/// How an invocation ends: the response to publish, and the calls that the host makes
/// without regard to whether they succeed.
#[derive(Debug, PartialEq)]
pub struct Outcome {
    pub response: Response,
    pub telemetry: Vec<CapabilityCall>,
}

/// An [`Outcome`] by the views of its parts.
pub struct OutcomeModel {
    pub response: ResponseModel,
    pub telemetry: Seq<CallModel>,
}

impl View for Outcome {
    type V = OutcomeModel;

    open spec fn view(&self) -> OutcomeModel {
        OutcomeModel { response: self.response@, telemetry: calls_view(self.telemetry@) }
    }
}

/// The graph call that the response to `task` hangs on, stamped with the time `now`.
///
/// Reporting progress reads the graph; updating mastery and creating a lesson write to it.
/// No other task has such a call.
pub open spec fn call_for(task: TaskModel, scores: Scores, now: u64) -> Option<CallModel> {
    match task {
        TaskModel::ChildProgress { child_id } => Some(
            CallModel::GraphRead { query: PayloadModel::ChildProgress { child_id, timestamp: now } },
        ),
        TaskModel::Mastery { concept, delta, context } => Some(
            CallModel::GraphWrite {
                mutation: PayloadModel::MasteryUpdate {
                    concept,
                    delta,
                    truth_field_strength: scores.strength,
                    harmonic_coherence: scores.coherence,
                    context,
                    timestamp: now,
                },
            },
        ),
        TaskModel::Lesson { concept, class_id, content } => Some(
            CallModel::GraphWrite {
                mutation: PayloadModel::LessonCreation { concept, class_id, content, timestamp: now },
            },
        ),
        _ => None,
    }
}

/// A call that may be absent, by its view.
pub open spec fn call_view(call: Option<CapabilityCall>) -> Option<CallModel> {
    match call {
        Some(c) => Some(c@),
        None => None,
    }
}

/// The graph call that the response to `task` hangs on, if it has one. The host makes it
/// once and hands its fate to [`conclude`].
pub fn required_call(task: &Task, scores: &Scores, now: u64) -> (r: Option<CapabilityCall>)
    ensures
        call_view(r) == call_for(task@, *scores, now),
        r matches Some(call) ==> call@.is_decisive(),
{
    match task {
        Task::ChildProgress { child_id } => Some(
            CapabilityCall::GraphRead {
                query: Payload::ChildProgress { child_id: child_id.clone(), timestamp: now },
            },
        ),
        Task::Mastery { concept, delta, context } => Some(
            CapabilityCall::GraphWrite {
                mutation: Payload::MasteryUpdate {
                    concept: concept.clone(),
                    delta: *delta,
                    truth_field_strength: scores.strength,
                    harmonic_coherence: scores.coherence,
                    context: context.clone(),
                    timestamp: now,
                },
            },
        ),
        Task::Lesson { concept, class_id, content } => Some(
            CapabilityCall::GraphWrite {
                mutation: Payload::LessonCreation {
                    concept: concept.clone(),
                    class_id: class_id.clone(),
                    content: content.clone(),
                    timestamp: now,
                },
            },
        ),
        _ => None,
    }
}

/// The sample of a spectrum at its centre. The exponential of zero is one, and a sample at
/// a frequency that is not greater than zero is zero; so the sample is one around a centre
/// that is greater than zero, and zero around any other.
pub open spec fn centre_sample(centre: Scalar) -> Scalar {
    if centre.is_positive() {
        Scalar { bits: ONE_BITS }
    } else {
        Scalar { bits: 0 }
    }
}

/// The spectrum around `centre`, from the leftmost sample on: the five samples below the
/// centre, the sample at the centre, the five samples above it.
pub open spec fn spectrum_around(centre: Scalar, sides: Seq<Scalar>) -> Seq<Scalar> {
    sides.take(5) + seq![centre_sample(centre)] + sides.skip(5)
}

/// What waiting adds to patience: `0.15` after more than 300 units of time, `0.05` before.
pub open spec fn patience_delta(time_spent: u64) -> Scalar {
    if time_spent > 300 {
        Scalar { bits: THREE_TWENTIETHS_BITS }
    } else {
        Scalar { bits: TWENTIETH_BITS }
    }
}

/// The response that reports success with `body`.
pub open spec fn success(message: Seq<char>, body: BodyModel) -> ResponseModel {
    ResponseModel { success: true, message, body }
}

/// How the invocation that `task` came from ends, given what the host evaluated and whether
/// the graph call of the task succeeded. For a task without a graph call the last does not
/// matter.
pub open spec fn outcome_of(task: TaskModel, scores: Scores, call_succeeded: bool) -> OutcomeModel {
    match task {
        TaskModel::TruthField { agent_id, claim, context } => OutcomeModel {
            response: success(
                "Truth field calculated"@,
                BodyModel::Resonance {
                    truth_field_strength: scores.strength,
                    harmonic_coherence: scores.coherence,
                    resonance_spectrum: spectrum_around(scores.strength, scores.sides@),
                },
            ),
            telemetry: seq![
                CallModel::RecordResonance { agent_id, context, score: scores.strength },
                CallModel::EmitEvent {
                    agent_id,
                    frequency: scores.strength,
                    amplitude: scores.strength,
                    context,
                },
            ],
        },
        TaskModel::Resonance { .. } => OutcomeModel {
            response: success(
                "Resonance measured"@,
                BodyModel::Resonance {
                    truth_field_strength: scores.strength,
                    harmonic_coherence: scores.coherence,
                    resonance_spectrum: spectrum_around(scores.strength, scores.sides@),
                },
            ),
            telemetry: Seq::empty(),
        },
        TaskModel::ChildProgress { child_id } => OutcomeModel {
            response: if call_succeeded {
                success(
                    "Child progress retrieved"@,
                    BodyModel::ChildProgress { child_id, virtues: Virtues::none() },
                )
            } else {
                ResponseModel {
                    success: false,
                    message: Failure::GraphRead.text(),
                    body: BodyModel::ChildProgress { child_id, virtues: Virtues::none() },
                }
            },
            telemetry: Seq::empty(),
        },
        TaskModel::Mastery { concept, delta, context } => if call_succeeded {
            OutcomeModel {
                response: success(
                    "Mastery updated for concept: "@ + concept + " via real graph operation"@,
                    BodyModel::Mastery {
                        new_mastery: delta,
                        truth_field_strength: scores.strength,
                        harmonic_coherence: scores.coherence,
                    },
                ),
                telemetry: seq![
                    CallModel::RecordResonance {
                        agent_id: "student_agent"@,
                        context,
                        score: scores.strength,
                    },
                ],
            }
        } else {
            OutcomeModel {
                response: refusal(Agent::Student, Failure::GraphWrite),
                telemetry: Seq::empty(),
            }
        },
        TaskModel::Lesson { concept, class_id, .. } => OutcomeModel {
            response: if call_succeeded {
                success(
                    "Lesson created for concept: "@ + concept + " in class: "@ + class_id
                        + " via real graph operation"@,
                    BodyModel::Lesson { lesson_id: "pending_graph_id"@ },
                )
            } else {
                refusal(Agent::Teacher, Failure::GraphWrite)
            },
            telemetry: Seq::empty(),
        },
        TaskModel::LessonStart { student_id } => OutcomeModel {
            response: success(
                "Photosynthesis lesson started successfully via real metrics recording"@,
                BodyModel::Topic {
                    mastery_delta: Scalar { bits: 0 },
                    virtue_deltas: Virtues {
                        curiosity: Scalar { bits: TENTH_BITS },
                        patience: Scalar { bits: 0 },
                        honesty: Scalar { bits: 0 },
                    },
                },
            ),
            telemetry: seq![
                CallModel::RecordVirtue {
                    subject_id: student_id,
                    virtue: Virtue::Curiosity,
                    delta: Scalar { bits: TENTH_BITS },
                },
            ],
        },
        TaskModel::Grading { student_id, lesson } => OutcomeModel {
            response: success(
                "Submission graded successfully via real metrics recording"@,
                BodyModel::Topic {
                    mastery_delta: scores.mastery_delta,
                    virtue_deltas: Virtues {
                        curiosity: Scalar { bits: TWENTIETH_BITS },
                        patience: patience_delta(lesson.time_spent),
                        honesty: Scalar { bits: TENTH_BITS },
                    },
                },
            ),
            telemetry: seq![
                CallModel::RecordVirtue {
                    subject_id: student_id,
                    virtue: Virtue::Patience,
                    delta: patience_delta(lesson.time_spent),
                },
                CallModel::RecordVirtue {
                    subject_id: student_id,
                    virtue: Virtue::Honesty,
                    delta: Scalar { bits: TENTH_BITS },
                },
            ],
        },
    }
}

/// The spectrum around `centre` with the given samples to its sides.
fn spectrum(centre: Scalar, sides: &[Scalar; 10]) -> (r: Vec<Scalar>)
    ensures
        r@ == spectrum_around(centre, sides@),
        r@.len() == SPECTRUM_SAMPLES,
{
    let mut r: Vec<Scalar> = Vec::new();
    let mut i: usize = 0;
    while i < 5
        invariant
            i <= 5,
            r@ == sides@.take(i as int),
        decreases 5 - i,
    {
        r.push(sides[i]);
        i = i + 1;
    }
    r.push(
        if centre.exceeds_zero() {
            Scalar::one()
        } else {
            Scalar::zero()
        },
    );
    while i < 10
        invariant
            5 <= i <= 10,
            r@ == sides@.take(5) + seq![centre_sample(centre)] + sides@.subrange(5, i as int),
        decreases 10 - i,
    {
        r.push(sides[i]);
        i = i + 1;
    }
    proof {
        assert(sides@.subrange(5, 10) == sides@.skip(5));
    }
    r
}

/// Ends the invocation that `task` came from. `scores` is what the host evaluated for the
/// demand of the task; `call_succeeded` says whether the graph call of the task succeeded.
pub fn conclude(task: Task, scores: &Scores, call_succeeded: bool) -> (r: Outcome)
    ensures
        r@ == outcome_of(task@, *scores, call_succeeded),
{
    match task {
        Task::TruthField { agent_id, claim, context } => {
            let response = Response {
                success: true,
                message: "Truth field calculated".to_owned(),
                body: Body::Resonance {
                    truth_field_strength: scores.strength,
                    harmonic_coherence: scores.coherence,
                    resonance_spectrum: spectrum(scores.strength, &scores.sides),
                },
            };
            let mut telemetry: Vec<CapabilityCall> = Vec::new();
            telemetry.push(
                CapabilityCall::RecordResonance {
                    agent_id: agent_id.clone(),
                    context: context.clone(),
                    score: scores.strength,
                },
            );
            telemetry.push(
                CapabilityCall::EmitEvent {
                    agent_id,
                    frequency: scores.strength,
                    amplitude: scores.strength,
                    context,
                },
            );
            let r = Outcome { response, telemetry };
            proof {
                assert(r@.telemetry =~= outcome_of(task@, *scores, call_succeeded).telemetry);
            }
            r
        },
        Task::Resonance { .. } => {
            let response = Response {
                success: true,
                message: "Resonance measured".to_owned(),
                body: Body::Resonance {
                    truth_field_strength: scores.strength,
                    harmonic_coherence: scores.coherence,
                    resonance_spectrum: spectrum(scores.strength, &scores.sides),
                },
            };
            let r = Outcome { response, telemetry: Vec::new() };
            proof {
                assert(r@.telemetry =~= Seq::<CallModel>::empty());
            }
            r
        },
        Task::ChildProgress { child_id } => {
            let response = if call_succeeded {
                Response {
                    success: true,
                    message: "Child progress retrieved".to_owned(),
                    body: Body::ChildProgress { child_id, virtues: Virtues::zero() },
                }
            } else {
                Response {
                    success: false,
                    message: Failure::GraphRead.message().to_owned(),
                    body: Body::ChildProgress { child_id, virtues: Virtues::zero() },
                }
            };
            let r = Outcome { response, telemetry: Vec::new() };
            proof {
                assert(r@.telemetry =~= Seq::<CallModel>::empty());
            }
            r
        },
        Task::Mastery { concept, delta, context } => {
            if call_succeeded {
                let mut message = "Mastery updated for concept: ".to_owned();
                message.append(concept.as_str());
                message.append(" via real graph operation");
                let response = Response {
                    success: true,
                    message,
                    body: Body::Mastery {
                        new_mastery: delta,
                        truth_field_strength: scores.strength,
                        harmonic_coherence: scores.coherence,
                    },
                };
                let mut telemetry: Vec<CapabilityCall> = Vec::new();
                telemetry.push(
                    CapabilityCall::RecordResonance {
                        agent_id: "student_agent".to_owned(),
                        context,
                        score: scores.strength,
                    },
                );
                let r = Outcome { response, telemetry };
                proof {
                    assert(r@.telemetry =~= outcome_of(task@, *scores, call_succeeded).telemetry);
                }
                r
            } else {
                let r = Outcome {
                    response: refuse(Agent::Student, Failure::GraphWrite),
                    telemetry: Vec::new(),
                };
                proof {
                    assert(r@.telemetry =~= Seq::<CallModel>::empty());
                }
                r
            }
        },
        Task::Lesson { concept, class_id, .. } => {
            let response = if call_succeeded {
                let mut message = "Lesson created for concept: ".to_owned();
                message.append(concept.as_str());
                message.append(" in class: ");
                message.append(class_id.as_str());
                message.append(" via real graph operation");
                Response {
                    success: true,
                    message,
                    body: Body::Lesson { lesson_id: "pending_graph_id".to_owned() },
                }
            } else {
                refuse(Agent::Teacher, Failure::GraphWrite)
            };
            let r = Outcome { response, telemetry: Vec::new() };
            proof {
                assert(r@.telemetry =~= Seq::<CallModel>::empty());
            }
            r
        },
        Task::LessonStart { student_id } => {
            let response = Response {
                success: true,
                message: "Photosynthesis lesson started successfully via real metrics recording".to_owned(),
                body: Body::Topic {
                    mastery_delta: Scalar::zero(),
                    virtue_deltas: Virtues {
                        curiosity: Scalar::from_bits(TENTH_BITS),
                        patience: Scalar::zero(),
                        honesty: Scalar::zero(),
                    },
                },
            };
            let mut telemetry: Vec<CapabilityCall> = Vec::new();
            telemetry.push(
                CapabilityCall::RecordVirtue {
                    subject_id: student_id,
                    virtue: Virtue::Curiosity,
                    delta: Scalar::from_bits(TENTH_BITS),
                },
            );
            let r = Outcome { response, telemetry };
            proof {
                assert(r@.telemetry =~= outcome_of(task@, *scores, call_succeeded).telemetry);
            }
            r
        },
        Task::Grading { student_id, lesson } => {
            let patience = if lesson.time_spent > 300 {
                Scalar::from_bits(THREE_TWENTIETHS_BITS)
            } else {
                Scalar::from_bits(TWENTIETH_BITS)
            };
            let response = Response {
                success: true,
                message: "Submission graded successfully via real metrics recording".to_owned(),
                body: Body::Topic {
                    mastery_delta: scores.mastery_delta,
                    virtue_deltas: Virtues {
                        curiosity: Scalar::from_bits(TWENTIETH_BITS),
                        patience,
                        honesty: Scalar::from_bits(TENTH_BITS),
                    },
                },
            };
            let mut telemetry: Vec<CapabilityCall> = Vec::new();
            telemetry.push(
                CapabilityCall::RecordVirtue {
                    subject_id: student_id.clone(),
                    virtue: Virtue::Patience,
                    delta: patience,
                },
            );
            telemetry.push(
                CapabilityCall::RecordVirtue {
                    subject_id: student_id,
                    virtue: Virtue::Honesty,
                    delta: Scalar::from_bits(TENTH_BITS),
                },
            );
            let r = Outcome { response, telemetry };
            proof {
                assert(r@.telemetry =~= outcome_of(task@, *scores, call_succeeded).telemetry);
            }
            r
        },
    }
}

/// Every invocation ends well-formed, whatever the host evaluated and however its call went.
///
/// The response succeeds unless the task has a graph call and that call failed. A response
/// that fails reports nothing: its quantities are zero, its spectrum is empty, and no
/// telemetry goes with it. The body has the shape of the agent that did the work. No call of
/// the telemetry is one that a response hangs on.
pub proof fn outcome_is_well_formed(task: TaskModel, scores: Scores, now: u64, call_succeeded: bool)
    ensures
        outcome_of(task, scores, call_succeeded).response.success == (call_for(task, scores, now) is None
            || call_succeeded),
        !outcome_of(task, scores, call_succeeded).response.success ==> {
            &&& outcome_of(task, scores, call_succeeded).response.body.is_blank()
            &&& outcome_of(task, scores, call_succeeded).telemetry.len() == 0
        },
        outcome_of(task, scores, call_succeeded).response.body.agent() == task.agent(),
        forall|i: int|
            0 <= i < outcome_of(task, scores, call_succeeded).telemetry.len()
                ==> !(#[trigger] outcome_of(task, scores, call_succeeded).telemetry[i]).is_decisive(),
{
}

/// A response of the resonance engine succeeds with a spectrum of exactly eleven samples.
/// The sample in the middle is one where the strength is greater than zero and zero where
/// it is not; the others are those that the host evaluated, in their order.
pub proof fn spectrum_has_eleven_samples(task: TaskModel, scores: Scores, call_succeeded: bool)
    requires
        task.agent() == Agent::ResonanceEngine,
    ensures
        outcome_of(task, scores, call_succeeded).response.success,
        outcome_of(task, scores, call_succeeded).response.body matches BodyModel::Resonance {
            truth_field_strength,
            resonance_spectrum,
            ..
        } && {
            &&& truth_field_strength == scores.strength
            &&& resonance_spectrum.len() == SPECTRUM_SAMPLES
            &&& resonance_spectrum[5] == if truth_field_strength.is_positive() {
                Scalar { bits: ONE_BITS }
            } else {
                Scalar { bits: 0 }
            }
            &&& forall|i: int| 0 <= i < 5 ==> resonance_spectrum[i] == scores.sides@[i]
            &&& forall|i: int| 6 <= i < 11 ==> resonance_spectrum[i] == scores.sides@[i - 1]
        },
{
    broadcast use vstd::array::array_len_matches_n;

}

/// What the bytes of a request come to for `agent`: the task they ask for, or the response
/// that turns them down.
pub open spec fn begun(agent: Agent, bytes: Seq<u8>) -> Result<TaskModel, ResponseModel> {
    match decoded(bytes) {
        Err(_) => Err(refusal(agent, Failure::InvalidInput)),
        Ok(request) => match task_of(agent, request) {
            Ok(task) => Ok(task),
            Err(failure) => Err(refusal(agent, failure)),
        },
    }
}

/// A request is turned down with a response that fails and reports nothing. Bytes that hold
/// no request are turned down as invalid input.
pub proof fn refusals_report_nothing(agent: Agent, bytes: Seq<u8>)
    ensures
        begun(agent, bytes) matches Err(response) ==> {
            &&& !response.success
            &&& response.body.is_blank()
            &&& response.body.agent() == agent
        },
        decoded(bytes) is Err ==> begun(agent, bytes) == Err::<TaskModel, _>(
            refusal(agent, Failure::InvalidInput),
        ),
        begun(agent, bytes) matches Ok(task) ==> task.agent() == agent,
{
}

/// What [`begin`] gave, by the views of its parts.
pub open spec fn beginning_view(r: Result<Task, Response>) -> Result<TaskModel, ResponseModel> {
    match r {
        Ok(task) => Ok(task@),
        Err(response) => Err(response@),
    }
}

/// Takes the bytes of a request through decoding and validation. Bytes that hold no request
/// are turned down as invalid input, a name that the agent does not serve as an unknown
/// operation, and a request that lacks a member by the name of that member.
pub fn begin(agent: Agent, bytes: &[u8]) -> (r: Result<Task, Response>)
    ensures
        beginning_view(r) == begun(agent, bytes@),
{
    match decode(bytes) {
        Err(_) => Err(refuse(agent, Failure::InvalidInput)),
        Ok(request) => match validate(agent, request) {
            Ok(task) => Ok(task),
            Err(failure) => Err(refuse(agent, failure)),
        },
    }
}

} // verus!
