//! The calls an agent asks its host to make.
//!
//! The core never makes a call itself. It says which call is owed and with what; the host
//! makes it and reports whether it succeeded.

use crate::operation::Operation;
use crate::scalar::Scalar;
use vstd::prelude::*;

verus! {

/// The virtues that agents keep metrics of.
#[derive(Clone, Copy, Debug, PartialEq, Eq, Structural)]
pub enum Virtue {
    Curiosity,
    Patience,
    Honesty,
}

impl Virtue {
    /// The name of the virtue on the wire.
    pub open spec fn name(self) -> Seq<char> {
        match self {
            Virtue::Curiosity => "curiosity"@,
            Virtue::Patience => "patience"@,
            Virtue::Honesty => "honesty"@,
        }
    }

    /// The name of the virtue on the wire.
    pub fn label(&self) -> (r: &'static str)
        ensures
            r@ == self.name(),
    {
        match self {
            Virtue::Curiosity => "curiosity",
            Virtue::Patience => "patience",
            Virtue::Honesty => "honesty",
        }
    }
}

/// What a graph call carries: the operation it serves, the entities it is about, and the
/// time of the invocation in seconds since the epoch.
#[derive(Debug, PartialEq)]
pub enum Payload {
    ChildProgress { child_id: String, timestamp: u64 },
    MasteryUpdate {
        concept: String,
        delta: Scalar,
        truth_field_strength: Scalar,
        harmonic_coherence: Scalar,
        context: String,
        timestamp: u64,
    },
    LessonCreation { concept: String, class_id: String, content: String, timestamp: u64 },
}

/// A [`Payload`] with its texts as sequences of characters.
pub enum PayloadModel {
    ChildProgress { child_id: Seq<char>, timestamp: u64 },
    MasteryUpdate {
        concept: Seq<char>,
        delta: Scalar,
        truth_field_strength: Scalar,
        harmonic_coherence: Scalar,
        context: Seq<char>,
        timestamp: u64,
    },
    LessonCreation { concept: Seq<char>, class_id: Seq<char>, content: Seq<char>, timestamp: u64 },
}

impl View for Payload {
    type V = PayloadModel;

    open spec fn view(&self) -> PayloadModel {
        match self {
            Payload::ChildProgress { child_id, timestamp } => PayloadModel::ChildProgress {
                child_id: child_id@,
                timestamp: *timestamp,
            },
            Payload::MasteryUpdate {
                concept,
                delta,
                truth_field_strength,
                harmonic_coherence,
                context,
                timestamp,
            } => PayloadModel::MasteryUpdate {
                concept: concept@,
                delta: *delta,
                truth_field_strength: *truth_field_strength,
                harmonic_coherence: *harmonic_coherence,
                context: context@,
                timestamp: *timestamp,
            },
            Payload::LessonCreation { concept, class_id, content, timestamp } => PayloadModel::LessonCreation {
                concept: concept@,
                class_id: class_id@,
                content: content@,
                timestamp: *timestamp,
            },
        }
    }
}

impl PayloadModel {
    /// The operation that the payload is tagged with.
    pub open spec fn operation(self) -> Operation {
        match self {
            PayloadModel::ChildProgress { .. } => Operation::GetChildProgress,
            PayloadModel::MasteryUpdate { .. } => Operation::UpdateMastery,
            PayloadModel::LessonCreation { .. } => Operation::CreateLesson,
        }
    }

    /// The time that the payload is stamped with.
    pub open spec fn timestamp(self) -> u64 {
        match self {
            PayloadModel::ChildProgress { timestamp, .. } => timestamp,
            PayloadModel::MasteryUpdate { timestamp, .. } => timestamp,
            PayloadModel::LessonCreation { timestamp, .. } => timestamp,
        }
    }
}

impl Payload {
    /// The operation that the payload is tagged with.
    pub fn operation(&self) -> (r: Operation)
        ensures
            r == self@.operation(),
    {
        match self {
            Payload::ChildProgress { .. } => Operation::GetChildProgress,
            Payload::MasteryUpdate { .. } => Operation::UpdateMastery,
            Payload::LessonCreation { .. } => Operation::CreateLesson,
        }
    }

    /// The time that the payload is stamped with.
    pub fn timestamp(&self) -> (r: u64)
        ensures
            r == self@.timestamp(),
    {
        match self {
            Payload::ChildProgress { timestamp, .. } => *timestamp,
            Payload::MasteryUpdate { timestamp, .. } => *timestamp,
            Payload::LessonCreation { timestamp, .. } => *timestamp,
        }
    }
}

/// A call to a capability of the host.
#[derive(Debug, PartialEq)]
pub enum CapabilityCall {
    GraphRead { query: Payload },
    GraphWrite { mutation: Payload },
    RecordResonance { agent_id: String, context: String, score: Scalar },
    RecordVirtue { subject_id: String, virtue: Virtue, delta: Scalar },
    EmitEvent { agent_id: String, frequency: Scalar, amplitude: Scalar, context: String },
}

/// A [`CapabilityCall`] with its texts as sequences of characters.
pub enum CallModel {
    GraphRead { query: PayloadModel },
    GraphWrite { mutation: PayloadModel },
    RecordResonance { agent_id: Seq<char>, context: Seq<char>, score: Scalar },
    RecordVirtue { subject_id: Seq<char>, virtue: Virtue, delta: Scalar },
    EmitEvent { agent_id: Seq<char>, frequency: Scalar, amplitude: Scalar, context: Seq<char> },
}

impl View for CapabilityCall {
    type V = CallModel;

    open spec fn view(&self) -> CallModel {
        match self {
            CapabilityCall::GraphRead { query } => CallModel::GraphRead { query: query@ },
            CapabilityCall::GraphWrite { mutation } => CallModel::GraphWrite { mutation: mutation@ },
            CapabilityCall::RecordResonance { agent_id, context, score } => CallModel::RecordResonance {
                agent_id: agent_id@,
                context: context@,
                score: *score,
            },
            CapabilityCall::RecordVirtue { subject_id, virtue, delta } => CallModel::RecordVirtue {
                subject_id: subject_id@,
                virtue: *virtue,
                delta: *delta,
            },
            CapabilityCall::EmitEvent { agent_id, frequency, amplitude, context } => CallModel::EmitEvent {
                agent_id: agent_id@,
                frequency: *frequency,
                amplitude: *amplitude,
                context: context@,
            },
        }
    }
}

impl CallModel {
    /// Whether the response hangs on the call: it does on a graph call, and on no other.
    pub open spec fn is_decisive(self) -> bool {
        self is GraphRead || self is GraphWrite
    }
}

impl CapabilityCall {
    /// Whether the response hangs on the call. The failure of any other call is passed over.
    pub fn is_decisive(&self) -> (r: bool)
        ensures
            r == self@.is_decisive(),
    {
        match self {
            CapabilityCall::GraphRead { .. } => true,
            CapabilityCall::GraphWrite { .. } => true,
            _ => false,
        }
    }
}

/// The views of a list of calls, in order.
pub open spec fn calls_view(calls: Seq<CapabilityCall>) -> Seq<CallModel> {
    Seq::new(calls.len(), |i: int| calls[i]@)
}

} // verus!
