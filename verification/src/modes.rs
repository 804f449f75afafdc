//! The two process-wide mode flags: how recording is triggered, and what is
//! done with recognized speech.  Each mode has a canonical string encoding
//! used for persistence and for keeping the worker's own copy in sync.

use vstd::prelude::*;

use crate::strutil::str_eq;

verus! {

/// How a recording is started and stopped: an explicit push-to-talk key, or a
/// worker-driven voice-activity loop.
#[derive(Debug, Clone, Copy, PartialEq, Eq, Structural)]
pub enum RecordingMode {
    Continuous,
    PushToTalk,
}

impl RecordingMode {
    /// The canonical string encoding of this mode.
    pub open spec fn spec_str(self) -> Seq<char> {
        match self {
            RecordingMode::Continuous => "continuous"@,
            RecordingMode::PushToTalk => "push-to-talk"@,
        }
    }

    pub fn as_str(&self) -> (r: &'static str)
        ensures
            r@ == self.spec_str(),
    {
        match self {
            RecordingMode::Continuous => "continuous",
            RecordingMode::PushToTalk => "push-to-talk",
        }
    }

    /// Which mode, if any, a string decodes to.
    pub open spec fn spec_from_str(s: Seq<char>) -> Option<RecordingMode> {
        if s == "continuous"@ {
            Some(RecordingMode::Continuous)
        } else if s == "push-to-talk"@ {
            Some(RecordingMode::PushToTalk)
        } else {
            None
        }
    }

    pub fn from_str(s: &str) -> (r: Option<RecordingMode>)
        ensures
            r == Self::spec_from_str(s@),
    {
        if str_eq(s, "continuous") {
            Some(RecordingMode::Continuous)
        } else if str_eq(s, "push-to-talk") {
            Some(RecordingMode::PushToTalk)
        } else {
            None
        }
    }
}

/// What happens to recognized speech: a spoken conversation with the
/// assistant, or plain text typed into the focused application.
#[derive(Debug, Clone, Copy, PartialEq, Eq, Structural)]
pub enum WorkMode {
    Conversation,
    TextInput,
}

impl WorkMode {
    /// The canonical string encoding of this mode.
    pub open spec fn spec_str(self) -> Seq<char> {
        match self {
            WorkMode::Conversation => "conversation"@,
            WorkMode::TextInput => "text-input"@,
        }
    }

    pub fn as_str(&self) -> (r: &'static str)
        ensures
            r@ == self.spec_str(),
    {
        match self {
            WorkMode::Conversation => "conversation",
            WorkMode::TextInput => "text-input",
        }
    }

    /// Which mode, if any, a string decodes to.
    pub open spec fn spec_from_str(s: Seq<char>) -> Option<WorkMode> {
        if s == "conversation"@ {
            Some(WorkMode::Conversation)
        } else if s == "text-input"@ {
            Some(WorkMode::TextInput)
        } else {
            None
        }
    }

    pub fn from_str(s: &str) -> (r: Option<WorkMode>)
        ensures
            r == Self::spec_from_str(s@),
    {
        if str_eq(s, "conversation") {
            Some(WorkMode::Conversation)
        } else if str_eq(s, "text-input") {
            Some(WorkMode::TextInput)
        } else {
            None
        }
    }
}

} // verus!
