//! The initialization handshake with the worker: its primary output is read
//! line by line until a log event signals that loading has finished.  The
//! ready signal is a `daemon_success` event whose message contains the word
//! "ready" or its localized equivalent; every other line is progress noise,
//! mapped to a user-visible loading message.

use vstd::prelude::*;

use crate::messages::{get_daemon_message, spec_daemon_message};
use crate::protocol::{
    json_str_field, json_str_field2, line_views, probe_str_field, probe_str_field2,
};
use crate::strutil::{contains_seq, str_contains, str_eq};

verus! {

/// The line that completes the handshake: a `daemon_success` event whose
/// message contains "ready" or its localized equivalent.
pub open spec fn spec_is_ready_line(l: Seq<char>) -> bool {
    &&& json_str_field(l, "event"@) == Some("daemon_success"@)
    &&& match json_str_field(l, "message"@) {
        Some(m) => contains_seq(m, "ready"@) || contains_seq(m, "就绪"@),
        None => false,
    }
}

/// Whether one line of worker output completes the handshake.
pub fn is_ready_line(line: &str) -> (r: bool)
    ensures
        r == spec_is_ready_line(line@),
{
    match probe_str_field(line, "event") {
        Some(ev) => {
            if str_eq(ev.as_str(), "daemon_success") {
                match probe_str_field(line, "message") {
                    Some(m) => str_contains(m.as_str(), "ready") || str_contains(
                        m.as_str(),
                        "就绪",
                    ),
                    None => false,
                }
            } else {
                false
            }
        },
        None => false,
    }
}

/// The position of the first ready line, if one was read.
pub open spec fn spec_ready_index(lines: Seq<Seq<char>>) -> Option<int>
    decreases lines.len(),
{
    if lines.len() == 0 {
        None
    } else if spec_is_ready_line(lines[0]) {
        Some(0)
    } else {
        match spec_ready_index(lines.drop_first()) {
            None => None,
            Some(i) => Some(i + 1),
        }
    }
}

proof fn lemma_ready_index_found(lines: Seq<Seq<char>>, i: int)
    requires
        0 <= i < lines.len(),
        forall|k: int| 0 <= k < i ==> !spec_is_ready_line(#[trigger] lines[k]),
        spec_is_ready_line(lines[i]),
    ensures
        spec_ready_index(lines) == Some(i),
    decreases i,
{
    if i > 0 {
        let rest = lines.drop_first();
        assert forall|k: int| 0 <= k < i - 1 implies !spec_is_ready_line(#[trigger] rest[k]) by {
            assert(rest[k] == lines[k + 1]);
        }
        assert(rest[i - 1] == lines[i]);
        lemma_ready_index_found(rest, i - 1);
    }
}

proof fn lemma_ready_index_none(lines: Seq<Seq<char>>)
    requires
        forall|k: int| 0 <= k < lines.len() ==> !spec_is_ready_line(#[trigger] lines[k]),
    ensures
        spec_ready_index(lines) is None,
    decreases lines.len(),
{
    if lines.len() > 0 {
        let rest = lines.drop_first();
        assert forall|k: int| 0 <= k < rest.len() implies !spec_is_ready_line(
            #[trigger] rest[k],
        ) by {
            assert(rest[k] == lines[k + 1]);
        }
        lemma_ready_index_none(rest);
    }
}

/// How a bounded handshake wait ends.
#[derive(Debug, Clone, Copy, PartialEq, Eq, Structural)]
pub enum ReadyOutcome {
    /// The line at this position completed the handshake.
    Ready(usize),
    /// The stream ended before any ready line: the worker exited early.
    ExitedEarly,
    /// No ready line yet and the stream is still open; the caller keeps
    /// reading until its timeout budget runs out.
    StillWaiting,
}

/// Judge the handshake from the lines read so far and whether the stream
/// has ended.  Any non-ready line is ignored as log noise; there is no
/// partial credit.
pub fn await_ready(lines: &Vec<String>, eof: bool) -> (r: ReadyOutcome)
    ensures
        ({
            let ls = line_views(lines@);
            match spec_ready_index(ls) {
                Some(i) => r == ReadyOutcome::Ready(i as usize),
                None => r == (if eof {
                    ReadyOutcome::ExitedEarly
                } else {
                    ReadyOutcome::StillWaiting
                }),
            }
        }),
{
    let ghost ls = line_views(lines@);
    let n = lines.len();
    let mut i: usize = 0;
    while i < n
        invariant
            n == lines.len(),
            ls == line_views(lines@),
            0 <= i <= n,
            forall|k: int| 0 <= k < i ==> !spec_is_ready_line(#[trigger] ls[k]),
        decreases n - i,
    {
        if is_ready_line(lines[i].as_str()) {
            proof {
                lemma_ready_index_found(ls, i as int);
            }
            return ReadyOutcome::Ready(i);
        }
        i = i + 1;
    }
    proof {
        lemma_ready_index_none(ls);
    }
    if eof {
        ReadyOutcome::ExitedEarly
    } else {
        ReadyOutcome::StillWaiting
    }
}

/// The notification sent to the presentation layer for one line of worker
/// output during startup: a loading payload carrying the mapped message,
/// or nothing for lines without a string `event` field.
pub fn startup_status_payload(line: &str, language: &str) -> (r: Option<
    crate::results::DaemonStatusPayload,
>)
    ensures
        r is Some <==> spec_startup_message(line@, language@) is Some,
        r matches Some(p) ==> p.status@ == "loading"@ && spec_startup_message(line@, language@)
            == Some(p.message@),
{
    match startup_status_message(line, language) {
        Some(message) => Some(
            crate::results::DaemonStatusPayload { status: "loading".to_owned(), message },
        ),
        None => None,
    }
}

/// The persisted modes carried in a `config` reply, to be adopted after
/// startup: the string values of `work_mode` and `recording_mode` inside
/// the reply's `config` object, each absent when missing or not a string.
pub fn modes_from_config_line(line: &str) -> (r: (Option<String>, Option<String>))
    ensures
        crate::strutil::opt_view(r.0) == json_str_field2(line@, "config"@, "work_mode"@),
        crate::strutil::opt_view(r.1) == json_str_field2(line@, "config"@, "recording_mode"@),
{
    (probe_str_field2(line, "config", "work_mode"), probe_str_field2(
        line,
        "config",
        "recording_mode",
    ))
}

/// The loading message shown for one line of worker output during startup:
/// nothing for a line without a string `event` field; a fixed localized
/// message for the known loading stages; for a `daemon_success` event its
/// own message, or the ready message once the handshake completes; the
/// line's message, or a generic loading message, for anything else.
pub open spec fn spec_startup_message(l: Seq<char>, lang: Seq<char>) -> Option<Seq<char>> {
    match json_str_field(l, "event"@) {
        None => None,
        Some(ev) => Some(
            if ev == "daemon_initializing"@ {
                spec_daemon_message("initializing"@, lang)
            } else if ev == "loading_voice_assistant"@ {
                spec_daemon_message("loading_assistant"@, lang)
            } else if ev == "loading_asr"@ || ev == "asr_loaded"@ {
                spec_daemon_message("loading_asr"@, lang)
            } else if ev == "loading_llm"@ || ev == "llm_loaded"@ {
                spec_daemon_message("loading_llm"@, lang)
            } else if ev == "loading_tts"@ || ev == "tts_loaded"@ {
                spec_daemon_message("loading_tts"@, lang)
            } else if ev == "resource_limits_failed"@ {
                spec_daemon_message("resource_limits_failed"@, lang)
            } else if ev == "daemon_success"@ {
                match json_str_field(l, "message"@) {
                    Some(m) => if contains_seq(m, "ready"@) || contains_seq(m, "就绪"@) {
                        spec_daemon_message("service_ready"@, lang)
                    } else {
                        m
                    },
                    None => spec_daemon_message("init_success"@, lang),
                }
            } else {
                match json_str_field(l, "message"@) {
                    Some(m) => m,
                    None => spec_daemon_message("loading"@, lang),
                }
            },
        ),
    }
}

/// The loading message to forward for one line of worker output, if any.
pub fn startup_status_message(line: &str, language: &str) -> (r: Option<String>)
    ensures
        r is Some <==> spec_startup_message(line@, language@) is Some,
        r matches Some(s) ==> spec_startup_message(line@, language@) == Some(s@),
{
    match probe_str_field(line, "event") {
        None => None,
        Some(ev) => Some(
            if str_eq(ev.as_str(), "daemon_initializing") {
                get_daemon_message("initializing", language)
            } else if str_eq(ev.as_str(), "loading_voice_assistant") {
                get_daemon_message("loading_assistant", language)
            } else if str_eq(ev.as_str(), "loading_asr") || str_eq(ev.as_str(), "asr_loaded") {
                get_daemon_message("loading_asr", language)
            } else if str_eq(ev.as_str(), "loading_llm") || str_eq(ev.as_str(), "llm_loaded") {
                get_daemon_message("loading_llm", language)
            } else if str_eq(ev.as_str(), "loading_tts") || str_eq(ev.as_str(), "tts_loaded") {
                get_daemon_message("loading_tts", language)
            } else if str_eq(ev.as_str(), "resource_limits_failed") {
                get_daemon_message("resource_limits_failed", language)
            } else if str_eq(ev.as_str(), "daemon_success") {
                match probe_str_field(line, "message") {
                    Some(m) => if str_contains(m.as_str(), "ready") || str_contains(
                        m.as_str(),
                        "就绪",
                    ) {
                        get_daemon_message("service_ready", language)
                    } else {
                        m
                    },
                    None => get_daemon_message("init_success", language),
                }
            } else {
                match probe_str_field(line, "message") {
                    Some(m) => m,
                    None => get_daemon_message("loading", language),
                }
            },
        ),
    }
}

} // verus!
