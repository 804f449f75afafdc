//! The line-oriented request/response protocol spoken with the worker.
//!
//! Every line the worker writes on its primary output is either an
//! out-of-band log event (a JSON object with an `"event"` key) or a command
//! response (any other JSON text).  A request round trip reads lines until
//! the first one that is not a log event; that line is the response.  The
//! parsing of a single line is delegated to `serde_json` behind three small
//! trusted probes; everything layered on them is verified.

use vstd::prelude::*;

verus! {

/// What one line holds for a given key, as `serde_json` reads it: `None`
/// when the line is not valid JSON; `Some(true)` when it parses as an object
/// holding the key; `Some(false)` otherwise.
pub uninterp spec fn json_key_present(line: Seq<char>, key: Seq<char>) -> Option<bool>;

/// The string value a key holds on a line: `Some(s)` exactly when the line
/// parses as a JSON object whose value under the key is the JSON string `s`.
pub uninterp spec fn json_str_field(line: Seq<char>, key: Seq<char>) -> Option<Seq<char>>;

/// The boolean value a key holds on a line: `Some(b)` exactly when the line
/// parses as a JSON object whose value under the key is the JSON boolean
/// `b`.
pub uninterp spec fn json_bool_field(line: Seq<char>, key: Seq<char>) -> Option<bool>;

/// Relies on serde_json::from_str and serde_json::Value::get: whether the
/// line parses as JSON, and whether a parsed object holds the key (`get`
/// returns `None` on every non-object value).
#[verifier::external_body]
pub(crate) fn probe_key(line: &str, key: &str) -> (r: Option<bool>)
    ensures
        r == json_key_present(line@, key@),
{
    match serde_json::from_str::<serde_json::Value>(line) {
        Ok(v) => Some(v.get(key).is_some()),
        Err(_) => None,
    }
}

/// Relies on serde_json::from_str, serde_json::Value::get and
/// serde_json::Value::as_str: the string value a key holds on a line, if
/// the line parses as an object and the value is a JSON string.
#[verifier::external_body]
pub(crate) fn probe_str_field(line: &str, key: &str) -> (r: Option<String>)
    ensures
        r is Some <==> json_str_field(line@, key@) is Some,
        r matches Some(s) ==> json_str_field(line@, key@) == Some(s@),
        r is Some ==> json_key_present(line@, key@) == Some(true),
{
    match serde_json::from_str::<serde_json::Value>(line) {
        Ok(v) => match v.get(key) {
            Some(f) => match f.as_str() {
                Some(s) => Some(s.to_string()),
                None => None,
            },
            None => None,
        },
        Err(_) => None,
    }
}

/// Relies on serde_json::from_str, serde_json::Value::get and
/// serde_json::Value::as_bool: the boolean value a key holds on a line, if
/// the line parses as an object and the value is a JSON boolean.
#[verifier::external_body]
pub(crate) fn probe_bool_field(line: &str, key: &str) -> (r: Option<bool>)
    ensures
        r == json_bool_field(line@, key@),
        r is Some ==> json_key_present(line@, key@) == Some(true),
{
    match serde_json::from_str::<serde_json::Value>(line) {
        Ok(v) => match v.get(key) {
            Some(f) => f.as_bool(),
            None => None,
        },
        Err(_) => None,
    }
}

/// The unsigned value a key holds on a line: `Some(n)` exactly when the
/// line parses as a JSON object whose value under the key is the JSON
/// number `n`, a non-negative integer within 64 bits.
pub uninterp spec fn json_u64_field(line: Seq<char>, key: Seq<char>) -> Option<u64>;

/// The value a key holds on a line, re-serialized as compact JSON text.
pub uninterp spec fn json_raw_field(line: Seq<char>, key: Seq<char>) -> Option<Seq<char>>;

/// The string value two keys deep: `Some(s)` exactly when the line parses
/// as a JSON object whose value under the first key is an object whose
/// value under the second key is the JSON string `s`.
pub uninterp spec fn json_str_field2(line: Seq<char>, key1: Seq<char>, key2: Seq<char>) -> Option<
    Seq<char>,
>;

/// Relies on serde_json::from_str, serde_json::Value::get and
/// serde_json::Value::as_u64: the unsigned value a key holds on a line.
#[verifier::external_body]
pub(crate) fn probe_u64_field(line: &str, key: &str) -> (r: Option<u64>)
    ensures
        r == json_u64_field(line@, key@),
        r is Some ==> json_key_present(line@, key@) == Some(true),
{
    match serde_json::from_str::<serde_json::Value>(line) {
        Ok(v) => match v.get(key) {
            Some(f) => f.as_u64(),
            None => None,
        },
        Err(_) => None,
    }
}

/// Relies on serde_json::from_str, serde_json::Value::get and
/// serde_json::Value::to_string: the value under the key, re-serialized as
/// compact JSON text.  serde_json keeps object members in an ordered map,
/// so the text is a function of the line alone.
#[verifier::external_body]
pub(crate) fn probe_raw_field(line: &str, key: &str) -> (r: Option<String>)
    ensures
        r is Some <==> json_raw_field(line@, key@) is Some,
        r matches Some(s) ==> json_raw_field(line@, key@) == Some(s@),
        r is Some <==> json_key_present(line@, key@) == Some(true),
{
    match serde_json::from_str::<serde_json::Value>(line) {
        Ok(v) => match v.get(key) {
            Some(f) => Some(f.to_string()),
            None => None,
        },
        Err(_) => None,
    }
}

/// Relies on serde_json::from_str, serde_json::Value::get (twice) and
/// serde_json::Value::as_str: the string value two keys deep.
#[verifier::external_body]
pub(crate) fn probe_str_field2(line: &str, key1: &str, key2: &str) -> (r: Option<String>)
    ensures
        r is Some <==> json_str_field2(line@, key1@, key2@) is Some,
        r matches Some(s) ==> json_str_field2(line@, key1@, key2@) == Some(s@),
{
    match serde_json::from_str::<serde_json::Value>(line) {
        Ok(v) => match v.get(key1) {
            Some(inner) => match inner.get(key2) {
                Some(f) => match f.as_str() {
                    Some(s) => Some(s.to_string()),
                    None => None,
                },
                None => None,
            },
            None => None,
        },
        Err(_) => None,
    }
}

/// An out-of-band log event: a JSON object with an `"event"` key.  Request
/// round trips skip such lines.
pub open spec fn is_event_line(line: Seq<char>) -> bool {
    json_key_present(line, "event"@) == Some(true)
}

/// A command response: valid JSON without an `"event"` key.
pub open spec fn is_response_line(line: Seq<char>) -> bool {
    json_key_present(line, "event"@) == Some(false)
}

/// A line that is not JSON at all; it aborts the request round trip.
pub open spec fn is_malformed_line(line: Seq<char>) -> bool {
    json_key_present(line, "event"@) is None
}

/// How a request round trip treats one line read from the worker.
#[derive(Debug, Clone, Copy, PartialEq, Eq, Structural)]
pub enum LineClass {
    /// A log event: skipped, the round trip keeps reading.
    Log,
    /// The response: returned to the caller.
    Response,
    /// Not JSON: the round trip fails with a protocol error.
    Malformed,
}

/// Classify one line read while waiting for a response.
pub fn classify_line(line: &str) -> (r: LineClass)
    ensures
        r == LineClass::Log <==> is_event_line(line@),
        r == LineClass::Response <==> is_response_line(line@),
        r == LineClass::Malformed <==> is_malformed_line(line@),
{
    match probe_key(line, "event") {
        Some(true) => LineClass::Log,
        Some(false) => LineClass::Response,
        None => LineClass::Malformed,
    }
}

/// The views of a sequence of lines.
pub open spec fn line_views(lines: Seq<String>) -> Seq<Seq<char>> {
    Seq::new(lines.len(), |i: int| lines[i]@)
}

/// The position of the line a request round trip would return: the first
/// line that is not a log event.
pub open spec fn spec_response_index(lines: Seq<Seq<char>>) -> Option<int>
    decreases lines.len(),
{
    if lines.len() == 0 {
        None
    } else if !is_event_line(lines[0]) {
        Some(0)
    } else {
        match spec_response_index(lines.drop_first()) {
            None => None,
            Some(i) => Some(i + 1),
        }
    }
}

/// The line a request round trip would return out of a sequence of read
/// lines, log noise skipped.
pub open spec fn spec_response_line(lines: Seq<Seq<char>>) -> Option<Seq<char>> {
    match spec_response_index(lines) {
        None => None,
        Some(i) => Some(lines[i]),
    }
}

/// A response position is always in range and names a non-event line.
pub proof fn lemma_response_index_in_range(lines: Seq<Seq<char>>)
    requires
        spec_response_index(lines) is Some,
    ensures
        ({
            let i = spec_response_index(lines)->Some_0;
            0 <= i < lines.len() && !is_event_line(lines[i])
        }),
    decreases lines.len(),
{
    if lines.len() > 0 && is_event_line(lines[0]) {
        lemma_response_index_in_range(lines.drop_first());
    }
}

/// The response position is the first non-event line, and everything before
/// it is an event line.
pub proof fn lemma_response_index_found(lines: Seq<Seq<char>>, i: int)
    requires
        0 <= i < lines.len(),
        forall|k: int| 0 <= k < i ==> is_event_line(#[trigger] lines[k]),
        !is_event_line(lines[i]),
    ensures
        spec_response_index(lines) == Some(i),
    decreases i,
{
    if i > 0 {
        let rest = lines.drop_first();
        assert forall|k: int| 0 <= k < i - 1 implies is_event_line(#[trigger] rest[k]) by {
            assert(rest[k] == lines[k + 1]);
        }
        assert(rest[i - 1] == lines[i]);
        lemma_response_index_found(rest, i - 1);
    }
}

/// A sequence of nothing but event lines yields no response.
pub proof fn lemma_response_index_none(lines: Seq<Seq<char>>)
    requires
        forall|k: int| 0 <= k < lines.len() ==> is_event_line(#[trigger] lines[k]),
    ensures
        spec_response_index(lines) is None,
    decreases lines.len(),
{
    if lines.len() > 0 {
        let rest = lines.drop_first();
        assert forall|k: int| 0 <= k < rest.len() implies is_event_line(#[trigger] rest[k]) by {
            assert(rest[k] == lines[k + 1]);
        }
        lemma_response_index_none(rest);
    }
}

/// What a scan of the lines read so far produced.
#[derive(Debug, Clone, Copy, PartialEq, Eq, Structural)]
pub enum ResponseScan {
    /// Every line was a log event; the round trip keeps reading.
    NoResponse,
    /// The line at this position is the response.
    Response(usize),
    /// The line at this position is not JSON; the round trip fails.
    Malformed(usize),
}

/// Find the line a request round trip returns: the first line that is not a
/// log event, reported as a response or as a protocol error.
pub fn scan_for_response(lines: &Vec<String>) -> (r: ResponseScan)
    ensures
        ({
            let ls = line_views(lines@);
            match r {
                ResponseScan::NoResponse => spec_response_index(ls) is None,
                ResponseScan::Response(i) => spec_response_index(ls) == Some(i as int)
                    && is_response_line(ls[i as int]),
                ResponseScan::Malformed(i) => spec_response_index(ls) == Some(i as int)
                    && is_malformed_line(ls[i as int]),
            }
        }),
{
    let ghost ls = line_views(lines@);
    let n = lines.len();
    let mut i: usize = 0;
    while i < n
        invariant
            n == lines.len(),
            ls == line_views(lines@),
            0 <= i <= n,
            forall|k: int| 0 <= k < i ==> is_event_line(#[trigger] ls[k]),
        decreases n - i,
    {
        match classify_line(lines[i].as_str()) {
            LineClass::Log => {
                assert(is_event_line(ls[i as int]));
                i = i + 1;
            },
            LineClass::Response => {
                proof {
                    lemma_response_index_found(ls, i as int);
                }
                return ResponseScan::Response(i);
            },
            LineClass::Malformed => {
                proof {
                    lemma_response_index_found(ls, i as int);
                }
                return ResponseScan::Malformed(i);
            },
        }
    }
    proof {
        lemma_response_index_none(ls);
    }
    ResponseScan::NoResponse
}

/// How a streaming chat operation treats one line read from the worker.
/// Payload fields are carried as the worker sent them.
#[derive(Debug, Clone)]
pub enum LlmStreamStep {
    /// A log event: skipped.
    SkipEvent,
    /// A partial reply; forwarded when the content is present.
    Chunk(Option<String>),
    /// The reply is complete: the stream ends.
    Done,
    /// The worker reported an error: forwarded, and the stream ends.
    Fail(Option<String>),
    /// Anything else, including lines that are not JSON: read on.
    Ignore,
}

/// The step a chat-stream line denotes.
pub open spec fn spec_llm_stream_step(l: Seq<char>, s: LlmStreamStep) -> bool {
    if is_event_line(l) {
        s == LlmStreamStep::SkipEvent
    } else if is_malformed_line(l) {
        s == LlmStreamStep::Ignore
    } else {
        match json_str_field(l, "type"@) {
            Some(t) => if t == "chunk"@ {
                s matches LlmStreamStep::Chunk(c) && crate::strutil::opt_view(c)
                    == json_str_field(l, "content"@)
            } else if t == "done"@ {
                s == LlmStreamStep::Done
            } else if t == "error"@ {
                s matches LlmStreamStep::Fail(e) && crate::strutil::opt_view(e) == json_str_field(
                    l,
                    "error"@,
                )
            } else {
                s == LlmStreamStep::Ignore
            },
            None => s == LlmStreamStep::Ignore,
        }
    }
}

/// Classify one line read while a chat stream is in flight.
pub fn llm_stream_step(line: &str) -> (r: LlmStreamStep)
    ensures
        spec_llm_stream_step(line@, r),
{
    match probe_key(line, "event") {
        Some(true) => LlmStreamStep::SkipEvent,
        None => LlmStreamStep::Ignore,
        Some(false) => match probe_str_field(line, "type") {
            Some(t) => {
                if crate::strutil::str_eq(t.as_str(), "chunk") {
                    LlmStreamStep::Chunk(probe_str_field(line, "content"))
                } else if crate::strutil::str_eq(t.as_str(), "done") {
                    LlmStreamStep::Done
                } else if crate::strutil::str_eq(t.as_str(), "error") {
                    LlmStreamStep::Fail(probe_str_field(line, "error"))
                } else {
                    LlmStreamStep::Ignore
                }
            },
            None => LlmStreamStep::Ignore,
        },
    }
}

/// How a streaming speech operation treats one line read from the worker.
#[derive(Debug, Clone)]
pub enum TtsStreamStep {
    /// A log event: skipped.
    SkipEvent,
    /// A partial reply text; forwarded when the content is present.
    TextChunk(Option<String>),
    /// A playable audio reference with its source text; forwarded when the
    /// path is present.
    AudioChunk { audio_path: Option<String>, text: Option<String> },
    /// The stream is complete.
    Done,
    /// The worker reported an error: forwarded, and the stream ends.
    Fail(Option<String>),
    /// Anything else, including lines that are not JSON: read on.
    Ignore,
}

/// The step a speech-stream line denotes.
pub open spec fn spec_tts_stream_step(l: Seq<char>, s: TtsStreamStep) -> bool {
    if is_event_line(l) {
        s == TtsStreamStep::SkipEvent
    } else if is_malformed_line(l) {
        s == TtsStreamStep::Ignore
    } else {
        match json_str_field(l, "type"@) {
            Some(t) => if t == "text_chunk"@ {
                s matches TtsStreamStep::TextChunk(c) && crate::strutil::opt_view(c)
                    == json_str_field(l, "content"@)
            } else if t == "audio_chunk"@ {
                s matches TtsStreamStep::AudioChunk { audio_path, text }
                    && crate::strutil::opt_view(audio_path) == json_str_field(l, "audio_path"@)
                    && crate::strutil::opt_view(text) == json_str_field(l, "text"@)
            } else if t == "done"@ {
                s == TtsStreamStep::Done
            } else if t == "error"@ {
                s matches TtsStreamStep::Fail(e) && crate::strutil::opt_view(e) == json_str_field(
                    l,
                    "error"@,
                )
            } else {
                s == TtsStreamStep::Ignore
            },
            None => s == TtsStreamStep::Ignore,
        }
    }
}

/// Classify one line read while a speech stream is in flight.
pub fn tts_stream_step(line: &str) -> (r: TtsStreamStep)
    ensures
        spec_tts_stream_step(line@, r),
{
    match probe_key(line, "event") {
        Some(true) => TtsStreamStep::SkipEvent,
        None => TtsStreamStep::Ignore,
        Some(false) => match probe_str_field(line, "type") {
            Some(t) => {
                if crate::strutil::str_eq(t.as_str(), "text_chunk") {
                    TtsStreamStep::TextChunk(probe_str_field(line, "content"))
                } else if crate::strutil::str_eq(t.as_str(), "audio_chunk") {
                    TtsStreamStep::AudioChunk {
                        audio_path: probe_str_field(line, "audio_path"),
                        text: probe_str_field(line, "text"),
                    }
                } else if crate::strutil::str_eq(t.as_str(), "done") {
                    TtsStreamStep::Done
                } else if crate::strutil::str_eq(t.as_str(), "error") {
                    TtsStreamStep::Fail(probe_str_field(line, "error"))
                } else {
                    TtsStreamStep::Ignore
                }
            },
            None => TtsStreamStep::Ignore,
        },
    }
}

/// Inserting further well-formed log lines ahead of the traffic never
/// changes the response a request round trip returns.
pub proof fn lemma_framing_idempotent(noise: Seq<Seq<char>>, rest: Seq<Seq<char>>)
    requires
        forall|k: int| 0 <= k < noise.len() ==> is_event_line(#[trigger] noise[k]),
    ensures
        spec_response_line(noise + rest) == spec_response_line(rest),
    decreases noise.len(),
{
    if noise.len() == 0 {
        assert(noise + rest =~= rest);
    } else {
        let whole = noise + rest;
        assert(whole[0] == noise[0]);
        assert(whole.drop_first() =~= noise.drop_first() + rest);
        assert forall|k: int| 0 <= k < noise.drop_first().len() implies is_event_line(
            #[trigger] noise.drop_first()[k],
        ) by {
            assert(noise.drop_first()[k] == noise[k + 1]);
        }
        lemma_framing_idempotent(noise.drop_first(), rest);
        match spec_response_index(noise.drop_first() + rest) {
            None => {},
            Some(i) => {
                lemma_response_index_in_range(noise.drop_first() + rest);
                assert(whole[i + 1] == (noise.drop_first() + rest)[i]);
            },
        }
    }
}

} // verus!
