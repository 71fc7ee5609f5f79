//! The agents, the operations each of them serves, and the ways an invocation can fail.

use crate::json::same_text;
use vstd::prelude::*;

verus! {

/// The agents. Each serves its own operations and answers in its own shape.
#[derive(Clone, Copy, Debug, PartialEq, Eq, Structural)]
pub enum Agent {
    /// Computes truth fields and measures resonance.
    ResonanceEngine,
    /// Reports a child's progress.
    Parent,
    /// Updates the mastery of a concept.
    Student,
    /// Creates lessons.
    Teacher,
    /// Starts the photosynthesis lesson and grades submissions to it.
    Topic,
}

/// The operations.
#[derive(Clone, Copy, Debug, PartialEq, Eq, Structural)]
pub enum Operation {
    CalculateTruthField,
    MeasureResonance,
    GetChildProgress,
    UpdateMastery,
    CreateLesson,
    StartLesson,
    GradeSubmission,
}

/// A member that an operation cannot do without.
#[derive(Clone, Copy, Debug, PartialEq, Eq, Structural)]
pub enum Field {
    Claim,
    Context,
    FrequencyOrAmplitude,
    Concept,
    Delta,
    ClassId,
    Content,
    ChildId,
    StudentId,
    LessonData,
}

/// Why an invocation ends in a failure response.
#[derive(Clone, Copy, Debug, PartialEq, Eq, Structural)]
pub enum Failure {
    /// The bytes held no request.
    InvalidInput,
    /// The agent serves no operation of that name.
    UnknownOperation,
    /// The operation is known and a member it needs is absent.
    Missing(Field),
    /// The host could not write to the graph.
    GraphWrite,
    /// The host could not read from the graph.
    GraphRead,
}

/// The operation that `agent` serves under the name `op`.
pub open spec fn operation_named(agent: Agent, op: Seq<char>) -> Option<Operation> {
    match agent {
        Agent::ResonanceEngine => if op == "calculate_truth_field"@ {
            Some(Operation::CalculateTruthField)
        } else if op == "measure_resonance"@ {
            Some(Operation::MeasureResonance)
        } else {
            None
        },
        Agent::Parent => if op == "get_child_progress"@ {
            Some(Operation::GetChildProgress)
        } else {
            None
        },
        Agent::Student => if op == "update_mastery"@ {
            Some(Operation::UpdateMastery)
        } else {
            None
        },
        Agent::Teacher => if op == "create_lesson"@ {
            Some(Operation::CreateLesson)
        } else {
            None
        },
        Agent::Topic => if op == "start_lesson"@ {
            Some(Operation::StartLesson)
        } else if op == "grade_submission"@ {
            Some(Operation::GradeSubmission)
        } else {
            None
        },
    }
}

/// The operation that `agent` serves under the name `op`.
pub fn operation_of(agent: Agent, op: &str) -> (r: Option<Operation>)
    ensures
        r == operation_named(agent, op@),
{
    match agent {
        Agent::ResonanceEngine => if same_text(op, "calculate_truth_field") {
            Some(Operation::CalculateTruthField)
        } else if same_text(op, "measure_resonance") {
            Some(Operation::MeasureResonance)
        } else {
            None
        },
        Agent::Parent => if same_text(op, "get_child_progress") {
            Some(Operation::GetChildProgress)
        } else {
            None
        },
        Agent::Student => if same_text(op, "update_mastery") {
            Some(Operation::UpdateMastery)
        } else {
            None
        },
        Agent::Teacher => if same_text(op, "create_lesson") {
            Some(Operation::CreateLesson)
        } else {
            None
        },
        Agent::Topic => if same_text(op, "start_lesson") {
            Some(Operation::StartLesson)
        } else if same_text(op, "grade_submission") {
            Some(Operation::GradeSubmission)
        } else {
            None
        },
    }
}

impl Operation {
    /// The name of the operation on the wire.
    pub open spec fn name(self) -> Seq<char> {
        match self {
            Operation::CalculateTruthField => "calculate_truth_field"@,
            Operation::MeasureResonance => "measure_resonance"@,
            Operation::GetChildProgress => "get_child_progress"@,
            Operation::UpdateMastery => "update_mastery"@,
            Operation::CreateLesson => "create_lesson"@,
            Operation::StartLesson => "start_lesson"@,
            Operation::GradeSubmission => "grade_submission"@,
        }
    }

    /// The name of the operation on the wire.
    pub fn tag(&self) -> (r: &'static str)
        ensures
            r@ == self.name(),
    {
        match self {
            Operation::CalculateTruthField => "calculate_truth_field",
            Operation::MeasureResonance => "measure_resonance",
            Operation::GetChildProgress => "get_child_progress",
            Operation::UpdateMastery => "update_mastery",
            Operation::CreateLesson => "create_lesson",
            Operation::StartLesson => "start_lesson",
            Operation::GradeSubmission => "grade_submission",
        }
    }
}

impl Field {
    /// How a failure names the member.
    pub open spec fn label(self) -> Seq<char> {
        match self {
            Field::Claim => "missing claim"@,
            Field::Context => "missing context"@,
            Field::FrequencyOrAmplitude => "missing frequency or amplitude"@,
            Field::Concept => "missing concept"@,
            Field::Delta => "missing delta"@,
            Field::ClassId => "missing class identifier"@,
            Field::Content => "missing content"@,
            Field::ChildId => "missing child identifier"@,
            Field::StudentId => "missing student identifier"@,
            Field::LessonData => "missing lesson data"@,
        }
    }
}

impl Failure {
    /// The message of the failure.
    pub open spec fn text(self) -> Seq<char> {
        match self {
            Failure::InvalidInput => "invalid input format"@,
            Failure::UnknownOperation => "unknown operation"@,
            Failure::Missing(field) => field.label(),
            Failure::GraphWrite => "graph write operation failed"@,
            Failure::GraphRead => "graph read operation failed"@,
        }
    }

    /// The message of the failure.
    pub fn message(&self) -> (r: &'static str)
        ensures
            r@ == self.text(),
    {
        match self {
            Failure::InvalidInput => "invalid input format",
            Failure::UnknownOperation => "unknown operation",
            Failure::Missing(Field::Claim) => "missing claim",
            Failure::Missing(Field::Context) => "missing context",
            Failure::Missing(Field::FrequencyOrAmplitude) => "missing frequency or amplitude",
            Failure::Missing(Field::Concept) => "missing concept",
            Failure::Missing(Field::Delta) => "missing delta",
            Failure::Missing(Field::ClassId) => "missing class identifier",
            Failure::Missing(Field::Content) => "missing content",
            Failure::Missing(Field::ChildId) => "missing child identifier",
            Failure::Missing(Field::StudentId) => "missing student identifier",
            Failure::Missing(Field::LessonData) => "missing lesson data",
            Failure::GraphWrite => "graph write operation failed",
            Failure::GraphRead => "graph read operation failed",
        }
    }
}

} // verus!
