//! From a request to the work it asks for.

use crate::codec::{LessonData, LessonModel, Request, RequestModel};
use crate::operation::{operation_named, operation_of, Agent, Failure, Field, Operation};
use crate::scalar::Scalar;
use crate::scoring::{
    coherence_phase, context_relevance, context_relevance_score, phase_difference, subject_weight,
    truth_field_weight,
};
use vstd::prelude::*;

verus! {

/// The work that a valid request asks for, with every member that the work reads.
#[derive(Debug, PartialEq)]
pub enum Task {
    TruthField { agent_id: String, claim: String, context: String },
    Resonance { agent_id: String, context: String, frequency: Scalar, amplitude: Scalar },
    ChildProgress { child_id: String },
    Mastery { concept: String, delta: Scalar, context: String },
    Lesson { concept: String, class_id: String, content: String },
    LessonStart { student_id: String },
    Grading { student_id: String, lesson: LessonData },
}

/// A [`Task`] with its texts as sequences of characters.
pub enum TaskModel {
    TruthField { agent_id: Seq<char>, claim: Seq<char>, context: Seq<char> },
    Resonance { agent_id: Seq<char>, context: Seq<char>, frequency: Scalar, amplitude: Scalar },
    ChildProgress { child_id: Seq<char> },
    Mastery { concept: Seq<char>, delta: Scalar, context: Seq<char> },
    Lesson { concept: Seq<char>, class_id: Seq<char>, content: Seq<char> },
    LessonStart { student_id: Seq<char> },
    Grading { student_id: Seq<char>, lesson: LessonModel },
}

impl View for Task {
    type V = TaskModel;

    open spec fn view(&self) -> TaskModel {
        match self {
            Task::TruthField { agent_id, claim, context } => TaskModel::TruthField {
                agent_id: agent_id@,
                claim: claim@,
                context: context@,
            },
            Task::Resonance { agent_id, context, frequency, amplitude } => TaskModel::Resonance {
                agent_id: agent_id@,
                context: context@,
                frequency: *frequency,
                amplitude: *amplitude,
            },
            Task::ChildProgress { child_id } => TaskModel::ChildProgress { child_id: child_id@ },
            Task::Mastery { concept, delta, context } => TaskModel::Mastery {
                concept: concept@,
                delta: *delta,
                context: context@,
            },
            Task::Lesson { concept, class_id, content } => TaskModel::Lesson {
                concept: concept@,
                class_id: class_id@,
                content: content@,
            },
            Task::LessonStart { student_id } => TaskModel::LessonStart { student_id: student_id@ },
            Task::Grading { student_id, lesson } => TaskModel::Grading { student_id: student_id@, lesson: lesson@ },
        }
    }
}

impl TaskModel {
    /// The agent that does the work.
    pub open spec fn agent(self) -> Agent {
        match self {
            TaskModel::TruthField { .. } => Agent::ResonanceEngine,
            TaskModel::Resonance { .. } => Agent::ResonanceEngine,
            TaskModel::ChildProgress { .. } => Agent::Parent,
            TaskModel::Mastery { .. } => Agent::Student,
            TaskModel::Lesson { .. } => Agent::Teacher,
            TaskModel::LessonStart { .. } => Agent::Topic,
            TaskModel::Grading { .. } => Agent::Topic,
        }
    }
}

/// The text, or the empty text where there is none.
pub open spec fn or_empty(text: Option<Seq<char>>) -> Seq<char> {
    match text {
        Some(t) => t,
        None => Seq::empty(),
    }
}

/// The context of a request to update mastery, or the general one where it names none.
pub open spec fn or_general(context: Option<Seq<char>>) -> Seq<char> {
    match context {
        Some(c) => c,
        None => "general_learning"@,
    }
}

/// The work that `request` asks of `agent`, or why the agent turns it down.
///
/// The name of the operation is looked up first. A known operation then asks for its
/// members in a fixed order, and the first that is absent is the one reported. An agent
/// identifier that is absent is the empty text.
pub open spec fn task_of(agent: Agent, request: RequestModel) -> Result<TaskModel, Failure> {
    match operation_named(agent, request.op) {
        None => Err(Failure::UnknownOperation),
        Some(Operation::CalculateTruthField) => match (request.claim, request.context) {
            (None, _) => Err(Failure::Missing(Field::Claim)),
            (Some(_), None) => Err(Failure::Missing(Field::Context)),
            (Some(claim), Some(context)) => Ok(
                TaskModel::TruthField { agent_id: or_empty(request.agent_id), claim, context },
            ),
        },
        Some(Operation::MeasureResonance) => match (request.frequency, request.amplitude, request.context) {
            (Some(frequency), Some(amplitude), Some(context)) => Ok(
                TaskModel::Resonance { agent_id: or_empty(request.agent_id), context, frequency, amplitude },
            ),
            (Some(_), Some(_), None) => Err(Failure::Missing(Field::Context)),
            _ => Err(Failure::Missing(Field::FrequencyOrAmplitude)),
        },
        Some(Operation::GetChildProgress) => match request.child_id {
            Some(child_id) => Ok(TaskModel::ChildProgress { child_id }),
            None => Err(Failure::Missing(Field::ChildId)),
        },
        Some(Operation::UpdateMastery) => match (request.concept, request.delta) {
            (None, _) => Err(Failure::Missing(Field::Concept)),
            (Some(_), None) => Err(Failure::Missing(Field::Delta)),
            (Some(concept), Some(delta)) => Ok(
                TaskModel::Mastery { concept, delta, context: or_general(request.context) },
            ),
        },
        Some(Operation::CreateLesson) => match (request.concept, request.class_id, request.content) {
            (None, _, _) => Err(Failure::Missing(Field::Concept)),
            (Some(_), None, _) => Err(Failure::Missing(Field::ClassId)),
            (Some(_), Some(_), None) => Err(Failure::Missing(Field::Content)),
            (Some(concept), Some(class_id), Some(content)) => Ok(TaskModel::Lesson { concept, class_id, content }),
        },
        Some(Operation::StartLesson) => match request.student_id {
            Some(student_id) => Ok(TaskModel::LessonStart { student_id }),
            None => Err(Failure::Missing(Field::StudentId)),
        },
        Some(Operation::GradeSubmission) => match (request.student_id, request.lesson_data) {
            (None, _) => Err(Failure::Missing(Field::StudentId)),
            (Some(_), None) => Err(Failure::Missing(Field::LessonData)),
            (Some(student_id), Some(lesson)) => Ok(TaskModel::Grading { student_id, lesson }),
        },
    }
}

/// What validation gave, with the task by its view.
pub open spec fn validation_view(r: Result<Task, Failure>) -> Result<TaskModel, Failure> {
    match r {
        Ok(task) => Ok(task@),
        Err(failure) => Err(failure),
    }
}

/// Validates `request` for `agent`: finds the operation it names and takes the members that
/// the operation needs.
pub fn validate(agent: Agent, request: Request) -> (r: Result<Task, Failure>)
    ensures
        validation_view(r) == task_of(agent, request@),
        r matches Ok(task) ==> task@.agent() == agent,
{
    let Request {
        op,
        agent_id,
        context,
        claim,
        frequency,
        amplitude,
        concept,
        delta,
        class_id,
        content,
        child_id,
        student_id,
        lesson_data,
    } = request;
    let operation = match operation_of(agent, op.as_str()) {
        Some(operation) => operation,
        None => {
            return Err(Failure::UnknownOperation);
        },
    };
    match operation {
        Operation::CalculateTruthField => match (claim, context) {
            (None, _) => Err(Failure::Missing(Field::Claim)),
            (Some(_), None) => Err(Failure::Missing(Field::Context)),
            (Some(claim), Some(context)) => {
                let agent_id = match agent_id {
                    Some(id) => id,
                    None => String::new(),
                };
                Ok(Task::TruthField { agent_id, claim, context })
            },
        },
        Operation::MeasureResonance => match (frequency, amplitude, context) {
            (Some(frequency), Some(amplitude), Some(context)) => {
                let agent_id = match agent_id {
                    Some(id) => id,
                    None => String::new(),
                };
                Ok(Task::Resonance { agent_id, context, frequency, amplitude })
            },
            (Some(_), Some(_), None) => Err(Failure::Missing(Field::Context)),
            _ => Err(Failure::Missing(Field::FrequencyOrAmplitude)),
        },
        Operation::GetChildProgress => match child_id {
            Some(child_id) => Ok(Task::ChildProgress { child_id }),
            None => Err(Failure::Missing(Field::ChildId)),
        },
        Operation::UpdateMastery => match (concept, delta) {
            (None, _) => Err(Failure::Missing(Field::Concept)),
            (Some(_), None) => Err(Failure::Missing(Field::Delta)),
            (Some(concept), Some(delta)) => {
                let context = match context {
                    Some(c) => c,
                    None => "general_learning".to_owned(),
                };
                Ok(Task::Mastery { concept, delta, context })
            },
        },
        Operation::CreateLesson => match (concept, class_id, content) {
            (None, _, _) => Err(Failure::Missing(Field::Concept)),
            (Some(_), None, _) => Err(Failure::Missing(Field::ClassId)),
            (Some(_), Some(_), None) => Err(Failure::Missing(Field::Content)),
            (Some(concept), Some(class_id), Some(content)) => Ok(Task::Lesson { concept, class_id, content }),
        },
        Operation::StartLesson => match student_id {
            Some(student_id) => Ok(Task::LessonStart { student_id }),
            None => Err(Failure::Missing(Field::StudentId)),
        },
        Operation::GradeSubmission => match (student_id, lesson_data) {
            (None, _) => Err(Failure::Missing(Field::StudentId)),
            (Some(_), None) => Err(Failure::Missing(Field::LessonData)),
            (Some(student_id), Some(lesson)) => Ok(Task::Grading { student_id, lesson }),
        },
    }
}

/// What a task asks the host to evaluate, with the whole numbers that the evaluation starts
/// from. The formulas are the host's to apply; `π`, `ln`, `cos`, `sin` and `exp` are theirs.
#[derive(Clone, Copy, Debug, PartialEq, Eq, Structural)]
pub enum Demand {
    /// Nothing is to be evaluated.
    Nothing,
    /// A truth field and a coherence. With `r = relevance / 100`, the strength is
    /// `min(1, |cos(ln(weight) · r · π)| / 2 + 1 / 2)` and the coherence is
    /// `|cos(phase / 100)|`. Where `spectrum` is set, the sides of a spectrum around the
    /// strength `s` are wanted too: for each `i` from 1 to 5, to either side, the sample at
    /// the frequency `f = s ± i · 0.1`, which is `exp(-((f - s) / 0.1)² / 2)` where `f` is
    /// greater than zero and zero elsewhere.
    TruthField { weight: usize, relevance: u8, phase: u128, spectrum: bool },
    /// A resonance, a coherence and the sides of a spectrum around the resonance. With
    /// `r = relevance / 100` and `f` the frequency, the strength is
    /// `amplitude · |sinc| · exp(-f² / 2) · r`, where `sinc` is one if `unit_sinc` is set
    /// and `sin(π · f) / (π · f)` otherwise.
    Resonance { frequency: Scalar, amplitude: Scalar, unit_sinc: bool, relevance: u8, phase: u128 },
    /// The mastery that a graded submission adds: `min(0.2, difficulty · 0.1)`.
    MasteryDelta { difficulty: Scalar },
}

/// Whether `demand` is what `task` asks the host to evaluate.
///
/// The truth field weighs the claim, or the concept, against the relevance of the context.
/// The coherence is between the agent and the context, for a student between the concept
/// and the context. The sinc factor is one exactly where the frequency is zero.
pub open spec fn asks(task: TaskModel, demand: Demand) -> bool {
    match task {
        TaskModel::TruthField { agent_id, claim, context } => {
            &&& demand matches Demand::TruthField { weight, relevance, phase, spectrum }
            &&& weight == subject_weight(claim)
            &&& relevance == context_relevance(context)
            &&& phase == phase_difference(agent_id, context)
            &&& spectrum
        },
        TaskModel::Mastery { concept, context, .. } => {
            &&& demand matches Demand::TruthField { weight, relevance, phase, spectrum }
            &&& weight == subject_weight(concept)
            &&& relevance == context_relevance(context)
            &&& phase == phase_difference(concept, context)
            &&& !spectrum
        },
        TaskModel::Resonance { agent_id, context, frequency, amplitude } => {
            &&& demand matches Demand::Resonance { frequency: f, amplitude: a, unit_sinc, relevance, phase }
            &&& f == frequency
            &&& a == amplitude
            &&& unit_sinc == frequency.is_zero()
            &&& relevance == context_relevance(context)
            &&& phase == phase_difference(agent_id, context)
        },
        TaskModel::Grading { lesson, .. } => demand == (Demand::MasteryDelta { difficulty: lesson.difficulty }),
        _ => demand is Nothing,
    }
}

impl Task {
    /// What the task asks the host to evaluate.
    pub fn demand(&self) -> (r: Demand)
        ensures
            asks(self@, r),
    {
        match self {
            Task::TruthField { agent_id, claim, context } => Demand::TruthField {
                weight: truth_field_weight(claim.as_str()),
                relevance: context_relevance_score(context.as_str()),
                phase: coherence_phase(agent_id.as_str(), context.as_str()),
                spectrum: true,
            },
            Task::Mastery { concept, context, .. } => Demand::TruthField {
                weight: truth_field_weight(concept.as_str()),
                relevance: context_relevance_score(context.as_str()),
                phase: coherence_phase(concept.as_str(), context.as_str()),
                spectrum: false,
            },
            Task::Resonance { agent_id, context, frequency, amplitude } => Demand::Resonance {
                frequency: *frequency,
                amplitude: *amplitude,
                unit_sinc: frequency.vanishes(),
                relevance: context_relevance_score(context.as_str()),
                phase: coherence_phase(agent_id.as_str(), context.as_str()),
            },
            Task::Grading { lesson, .. } => Demand::MasteryDelta { difficulty: lesson.difficulty },
            _ => Demand::Nothing,
        }
    }
}

} // verus!
