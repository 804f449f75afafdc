//! The global operation state machine: which of the mutually exclusive
//! operations is active, which transitions between them are legal, and which
//! priorities may interrupt which states.

use vstd::prelude::*;

use crate::strutil::str_eq;

verus! {

/// The process-wide operation state.
#[derive(Debug, Clone, Copy, PartialEq, Eq, Structural)]
pub enum AppStatus {
    Idle,
    Listening,
    Recording,
    AsrProcessing,
    LlmProcessing,
    TtsProcessing,
    Playing,
}

/// The legal transitions of the operation state machine.  A self-transition
/// is always legal as a no-op.
pub open spec fn spec_valid_transition(from: AppStatus, to: AppStatus) -> bool {
    ||| from == to
    ||| (from == AppStatus::Idle && (to == AppStatus::Listening || to == AppStatus::Recording))
    ||| (from == AppStatus::Listening && (to == AppStatus::Recording || to == AppStatus::Idle))
    ||| (from == AppStatus::Recording && (to == AppStatus::AsrProcessing || to == AppStatus::Idle))
    ||| (from == AppStatus::AsrProcessing && (to == AppStatus::Idle || to
        == AppStatus::LlmProcessing))
    ||| (from == AppStatus::LlmProcessing && (to == AppStatus::TtsProcessing || to
        == AppStatus::Idle))
    ||| (from == AppStatus::TtsProcessing && (to == AppStatus::Playing || to == AppStatus::Idle))
    ||| (from == AppStatus::Playing && (to == AppStatus::Idle || to == AppStatus::Listening))
}

/// Which states an interrupt of a given priority may preempt: priority 1 (a
/// mode switch) preempts anything; priority 2 (an explicit user stop) only an
/// active recording or listening session; priority 3 (application shutdown)
/// anything except an in-flight recording.
pub open spec fn spec_can_be_interrupted(s: AppStatus, interrupt_priority: u8) -> bool {
    if interrupt_priority == 1 {
        true
    } else if interrupt_priority == 2 {
        s == AppStatus::Recording || s == AppStatus::Listening
    } else if interrupt_priority == 3 {
        s != AppStatus::Recording
    } else {
        false
    }
}

impl AppStatus {
    /// The canonical string encoding of this state.
    pub open spec fn spec_str(self) -> Seq<char> {
        match self {
            AppStatus::Idle => "idle"@,
            AppStatus::Listening => "listening"@,
            AppStatus::Recording => "recording"@,
            AppStatus::AsrProcessing => "asr"@,
            AppStatus::LlmProcessing => "llm"@,
            AppStatus::TtsProcessing => "tts"@,
            AppStatus::Playing => "playing"@,
        }
    }

    pub fn as_str(&self) -> (r: &'static str)
        ensures
            r@ == self.spec_str(),
    {
        match self {
            AppStatus::Idle => "idle",
            AppStatus::Listening => "listening",
            AppStatus::Recording => "recording",
            AppStatus::AsrProcessing => "asr",
            AppStatus::LlmProcessing => "llm",
            AppStatus::TtsProcessing => "tts",
            AppStatus::Playing => "playing",
        }
    }

    /// Which state, if any, a string decodes to.
    pub open spec fn spec_from_str(s: Seq<char>) -> Option<AppStatus> {
        if s == "idle"@ {
            Some(AppStatus::Idle)
        } else if s == "listening"@ {
            Some(AppStatus::Listening)
        } else if s == "recording"@ {
            Some(AppStatus::Recording)
        } else if s == "asr"@ {
            Some(AppStatus::AsrProcessing)
        } else if s == "llm"@ {
            Some(AppStatus::LlmProcessing)
        } else if s == "tts"@ {
            Some(AppStatus::TtsProcessing)
        } else if s == "playing"@ {
            Some(AppStatus::Playing)
        } else {
            None
        }
    }

    pub fn from_str(s: &str) -> (r: Option<AppStatus>)
        ensures
            r == Self::spec_from_str(s@),
    {
        if str_eq(s, "idle") {
            Some(AppStatus::Idle)
        } else if str_eq(s, "listening") {
            Some(AppStatus::Listening)
        } else if str_eq(s, "recording") {
            Some(AppStatus::Recording)
        } else if str_eq(s, "asr") {
            Some(AppStatus::AsrProcessing)
        } else if str_eq(s, "llm") {
            Some(AppStatus::LlmProcessing)
        } else if str_eq(s, "tts") {
            Some(AppStatus::TtsProcessing)
        } else if str_eq(s, "playing") {
            Some(AppStatus::Playing)
        } else {
            None
        }
    }

    pub fn can_be_interrupted(&self, interrupt_priority: u8) -> (r: bool)
        ensures
            r == spec_can_be_interrupted(*self, interrupt_priority),
    {
        if interrupt_priority == 1 {
            true
        } else if interrupt_priority == 2 {
            matches!(self, AppStatus::Recording | AppStatus::Listening)
        } else if interrupt_priority == 3 {
            !matches!(self, AppStatus::Recording)
        } else {
            false
        }
    }
}

/// Whether a transition request must go through the validated transition
/// table.
pub fn valid_transition(from: AppStatus, to: AppStatus) -> (r: bool)
    ensures
        r == spec_valid_transition(from, to),
{
    if from == to {
        return true;
    }
    match (from, to) {
        (AppStatus::Idle, AppStatus::Listening) => true,
        (AppStatus::Idle, AppStatus::Recording) => true,
        (AppStatus::Listening, AppStatus::Recording) => true,
        (AppStatus::Listening, AppStatus::Idle) => true,
        (AppStatus::Recording, AppStatus::AsrProcessing) => true,
        (AppStatus::Recording, AppStatus::Idle) => true,
        (AppStatus::AsrProcessing, AppStatus::Idle) => true,
        (AppStatus::AsrProcessing, AppStatus::LlmProcessing) => true,
        (AppStatus::LlmProcessing, AppStatus::TtsProcessing) => true,
        (AppStatus::LlmProcessing, AppStatus::Idle) => true,
        (AppStatus::TtsProcessing, AppStatus::Playing) => true,
        (AppStatus::TtsProcessing, AppStatus::Idle) => true,
        (AppStatus::Playing, AppStatus::Idle) => true,
        (AppStatus::Playing, AppStatus::Listening) => true,
        _ => false,
    }
}

/// A priority-1 interrupt (a mode switch) is permitted in every state, and a
/// priority-3 interrupt (application shutdown) is permitted in exactly the
/// states other than `Recording`.
pub proof fn lemma_priority_monotonicity(s: AppStatus)
    ensures
        spec_can_be_interrupted(s, 1),
        spec_can_be_interrupted(s, 3) <==> s != AppStatus::Recording,
{
}

} // verus!
