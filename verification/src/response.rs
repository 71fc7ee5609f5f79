//! What an agent answers.

use crate::operation::{Agent, Failure};
use crate::scalar::Scalar;
use vstd::prelude::*;

verus! {

/// One quantity for each virtue.
#[derive(Clone, Copy, Debug, PartialEq, Eq, Structural)]
pub struct Virtues {
    pub curiosity: Scalar,
    pub patience: Scalar,
    pub honesty: Scalar,
}

impl Virtues {
    /// Zero for each virtue.
    pub open spec fn none() -> Virtues {
        Virtues { curiosity: Scalar { bits: 0 }, patience: Scalar { bits: 0 }, honesty: Scalar { bits: 0 } }
    }

    /// Zero for each virtue.
    pub fn zero() -> (r: Virtues)
        ensures
            r == Virtues::none(),
    {
        Virtues { curiosity: Scalar::zero(), patience: Scalar::zero(), honesty: Scalar::zero() }
    }
}

/// The part of a response that is an agent's own.
#[derive(Debug, PartialEq)]
pub enum Body {
    /// The resonance engine's: a strength, a coherence, and a spectrum around the strength.
    Resonance { truth_field_strength: Scalar, harmonic_coherence: Scalar, resonance_spectrum: Vec<Scalar> },
    /// The parent's: the child asked about, and the child's virtues.
    ChildProgress { child_id: String, virtues: Virtues },
    /// The student's: the mastery gained, and the scores of the concept.
    Mastery { new_mastery: Scalar, truth_field_strength: Scalar, harmonic_coherence: Scalar },
    /// The teacher's: the lesson created.
    Lesson { lesson_id: String },
    /// The topic's: what a step of the lesson adds to mastery and to each virtue.
    Topic { mastery_delta: Scalar, virtue_deltas: Virtues },
}

/// A [`Body`] with its texts and its spectrum as sequences.
pub enum BodyModel {
    Resonance { truth_field_strength: Scalar, harmonic_coherence: Scalar, resonance_spectrum: Seq<Scalar> },
    ChildProgress { child_id: Seq<char>, virtues: Virtues },
    Mastery { new_mastery: Scalar, truth_field_strength: Scalar, harmonic_coherence: Scalar },
    Lesson { lesson_id: Seq<char> },
    Topic { mastery_delta: Scalar, virtue_deltas: Virtues },
}

impl View for Body {
    type V = BodyModel;

    open spec fn view(&self) -> BodyModel {
        match self {
            Body::Resonance { truth_field_strength, harmonic_coherence, resonance_spectrum } => BodyModel::Resonance {
                truth_field_strength: *truth_field_strength,
                harmonic_coherence: *harmonic_coherence,
                resonance_spectrum: resonance_spectrum@,
            },
            Body::ChildProgress { child_id, virtues } => BodyModel::ChildProgress {
                child_id: child_id@,
                virtues: *virtues,
            },
            Body::Mastery { new_mastery, truth_field_strength, harmonic_coherence } => BodyModel::Mastery {
                new_mastery: *new_mastery,
                truth_field_strength: *truth_field_strength,
                harmonic_coherence: *harmonic_coherence,
            },
            Body::Lesson { lesson_id } => BodyModel::Lesson { lesson_id: lesson_id@ },
            Body::Topic { mastery_delta, virtue_deltas } => BodyModel::Topic {
                mastery_delta: *mastery_delta,
                virtue_deltas: *virtue_deltas,
            },
        }
    }
}

impl BodyModel {
    /// The agent whose shape the body has.
    pub open spec fn agent(self) -> Agent {
        match self {
            BodyModel::Resonance { .. } => Agent::ResonanceEngine,
            BodyModel::ChildProgress { .. } => Agent::Parent,
            BodyModel::Mastery { .. } => Agent::Student,
            BodyModel::Lesson { .. } => Agent::Teacher,
            BodyModel::Topic { .. } => Agent::Topic,
        }
    }

    /// Whether the body reports nothing: every quantity is zero, the spectrum has no sample
    /// and no lesson is named.
    pub open spec fn is_blank(self) -> bool {
        match self {
            BodyModel::Resonance { truth_field_strength, harmonic_coherence, resonance_spectrum } => {
                &&& truth_field_strength.bits == 0
                &&& harmonic_coherence.bits == 0
                &&& resonance_spectrum.len() == 0
            },
            BodyModel::ChildProgress { virtues, .. } => virtues == Virtues::none(),
            BodyModel::Mastery { new_mastery, truth_field_strength, harmonic_coherence } => {
                &&& new_mastery.bits == 0
                &&& truth_field_strength.bits == 0
                &&& harmonic_coherence.bits == 0
            },
            BodyModel::Lesson { lesson_id } => lesson_id.len() == 0,
            BodyModel::Topic { mastery_delta, virtue_deltas } => {
                &&& mastery_delta.bits == 0
                &&& virtue_deltas == Virtues::none()
            },
        }
    }
}

/// A response: whether the invocation succeeded, a message for people, and the agent's own
/// part.
#[derive(Debug, PartialEq)]
pub struct Response {
    pub success: bool,
    pub message: String,
    pub body: Body,
}

/// A [`Response`] with its texts as sequences of characters.
pub struct ResponseModel {
    pub success: bool,
    pub message: Seq<char>,
    pub body: BodyModel,
}

impl View for Response {
    type V = ResponseModel;

    open spec fn view(&self) -> ResponseModel {
        ResponseModel { success: self.success, message: self.message@, body: self.body@ }
    }
}

/// The body of `agent` that reports nothing.
pub open spec fn blank_body(agent: Agent) -> BodyModel {
    match agent {
        Agent::ResonanceEngine => BodyModel::Resonance {
            truth_field_strength: Scalar { bits: 0 },
            harmonic_coherence: Scalar { bits: 0 },
            resonance_spectrum: Seq::empty(),
        },
        Agent::Parent => BodyModel::ChildProgress { child_id: Seq::empty(), virtues: Virtues::none() },
        Agent::Student => BodyModel::Mastery {
            new_mastery: Scalar { bits: 0 },
            truth_field_strength: Scalar { bits: 0 },
            harmonic_coherence: Scalar { bits: 0 },
        },
        Agent::Teacher => BodyModel::Lesson { lesson_id: Seq::empty() },
        Agent::Topic => BodyModel::Topic { mastery_delta: Scalar { bits: 0 }, virtue_deltas: Virtues::none() },
    }
}

/// The response of `agent` to an invocation that failed: no success, the message of the
/// failure, and a body that reports nothing.
pub open spec fn refusal(agent: Agent, failure: Failure) -> ResponseModel {
    ResponseModel { success: false, message: failure.text(), body: blank_body(agent) }
}

/// Builds the response of `agent` to an invocation that failed.
pub fn refuse(agent: Agent, failure: Failure) -> (r: Response)
    ensures
        r@ == refusal(agent, failure),
        !r.success,
        r@.body.is_blank(),
        r@.body.agent() == agent,
{
    let body = match agent {
        Agent::ResonanceEngine => Body::Resonance {
            truth_field_strength: Scalar::zero(),
            harmonic_coherence: Scalar::zero(),
            resonance_spectrum: Vec::new(),
        },
        Agent::Parent => Body::ChildProgress { child_id: String::new(), virtues: Virtues::zero() },
        Agent::Student => Body::Mastery {
            new_mastery: Scalar::zero(),
            truth_field_strength: Scalar::zero(),
            harmonic_coherence: Scalar::zero(),
        },
        Agent::Teacher => Body::Lesson { lesson_id: String::new() },
        Agent::Topic => Body::Topic { mastery_delta: Scalar::zero(), virtue_deltas: Virtues::zero() },
    };
    Response { success: false, message: failure.message().to_owned(), body }
}

} // verus!
