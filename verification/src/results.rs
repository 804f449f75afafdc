//! Plain result and payload types exchanged with the worker and with the
//! presentation layer.

use vstd::prelude::*;

use crate::protocol::{
    json_bool_field, json_raw_field, json_str_field, json_u64_field, probe_bool_field,
    probe_raw_field, probe_str_field, probe_u64_field,
};
use crate::strutil::opt_view;

verus! {

/// Result of a `record` request: recognized text and its language on success.
#[derive(Debug, Clone)]
pub struct RecordResult {
    pub success: bool,
    pub text: Option<String>,
    pub language: Option<String>,
    pub error: Option<String>,
}

/// Result of a `chat` request: the assistant's reply on success.
#[derive(Debug, Clone)]
pub struct ChatResult {
    pub success: bool,
    pub content: Option<String>,
    pub error: Option<String>,
}

/// Result of a `tts` request: a playable audio file on success.
#[derive(Debug, Clone)]
pub struct TTSResult {
    pub success: bool,
    pub audio_path: Option<String>,
    pub error: Option<String>,
}

/// Result of a `config` request.  The configuration itself is carried as the
/// raw JSON text of the worker's reply.
#[derive(Debug, Clone)]
pub struct ConfigResult {
    pub success: bool,
    pub config: Option<String>,
    pub error: Option<String>,
}

/// Result of a `health` request.  `models_loaded` carries the raw JSON text
/// of the worker's model table.
#[derive(Debug, Clone)]
pub struct HealthResult {
    pub success: bool,
    pub status: Option<String>,
    pub command_count: Option<u64>,
    pub models_loaded: Option<String>,
    pub error: Option<String>,
}

impl RecordResult {
    /// Decode a `record` response line.  `None` exactly when the line
    /// carries no boolean `success` member.
    pub fn from_line(line: &str) -> (r: Option<RecordResult>)
        ensures
            r is Some <==> json_bool_field(line@, "success"@) is Some,
            r matches Some(x) ==> {
                &&& Some(x.success) == json_bool_field(line@, "success"@)
                &&& opt_view(x.text) == json_str_field(line@, "text"@)
                &&& opt_view(x.language) == json_str_field(line@, "language"@)
                &&& opt_view(x.error) == json_str_field(line@, "error"@)
            },
    {
        match probe_bool_field(line, "success") {
            Some(success) => Some(
                RecordResult {
                    success,
                    text: probe_str_field(line, "text"),
                    language: probe_str_field(line, "language"),
                    error: probe_str_field(line, "error"),
                },
            ),
            None => None,
        }
    }
}

impl ChatResult {
    /// Decode a `chat` response line.  `None` exactly when the line
    /// carries no boolean `success` member.
    pub fn from_line(line: &str) -> (r: Option<ChatResult>)
        ensures
            r is Some <==> json_bool_field(line@, "success"@) is Some,
            r matches Some(x) ==> {
                &&& Some(x.success) == json_bool_field(line@, "success"@)
                &&& opt_view(x.content) == json_str_field(line@, "content"@)
                &&& opt_view(x.error) == json_str_field(line@, "error"@)
            },
    {
        match probe_bool_field(line, "success") {
            Some(success) => Some(
                ChatResult {
                    success,
                    content: probe_str_field(line, "content"),
                    error: probe_str_field(line, "error"),
                },
            ),
            None => None,
        }
    }
}

impl TTSResult {
    /// Decode a `tts` response line.  `None` exactly when the line carries
    /// no boolean `success` member.
    pub fn from_line(line: &str) -> (r: Option<TTSResult>)
        ensures
            r is Some <==> json_bool_field(line@, "success"@) is Some,
            r matches Some(x) ==> {
                &&& Some(x.success) == json_bool_field(line@, "success"@)
                &&& opt_view(x.audio_path) == json_str_field(line@, "audio_path"@)
                &&& opt_view(x.error) == json_str_field(line@, "error"@)
            },
    {
        match probe_bool_field(line, "success") {
            Some(success) => Some(
                TTSResult {
                    success,
                    audio_path: probe_str_field(line, "audio_path"),
                    error: probe_str_field(line, "error"),
                },
            ),
            None => None,
        }
    }
}

impl ConfigResult {
    /// Decode a `config` response line.  `None` exactly when the line
    /// carries no boolean `success` member.
    pub fn from_line(line: &str) -> (r: Option<ConfigResult>)
        ensures
            r is Some <==> json_bool_field(line@, "success"@) is Some,
            r matches Some(x) ==> {
                &&& Some(x.success) == json_bool_field(line@, "success"@)
                &&& opt_view(x.config) == json_raw_field(line@, "config"@)
                &&& opt_view(x.error) == json_str_field(line@, "error"@)
            },
    {
        match probe_bool_field(line, "success") {
            Some(success) => Some(
                ConfigResult {
                    success,
                    config: probe_raw_field(line, "config"),
                    error: probe_str_field(line, "error"),
                },
            ),
            None => None,
        }
    }
}

impl HealthResult {
    /// Decode a `health` response line.  `None` exactly when the line
    /// carries no boolean `success` member.
    pub fn from_line(line: &str) -> (r: Option<HealthResult>)
        ensures
            r is Some <==> json_bool_field(line@, "success"@) is Some,
            r matches Some(x) ==> {
                &&& Some(x.success) == json_bool_field(line@, "success"@)
                &&& opt_view(x.status) == json_str_field(line@, "status"@)
                &&& x.command_count == json_u64_field(line@, "command_count"@)
                &&& opt_view(x.models_loaded) == json_raw_field(line@, "models_loaded"@)
                &&& opt_view(x.error) == json_str_field(line@, "error"@)
            },
    {
        match probe_bool_field(line, "success") {
            Some(success) => Some(
                HealthResult {
                    success,
                    status: probe_str_field(line, "status"),
                    command_count: probe_u64_field(line, "command_count"),
                    models_loaded: probe_raw_field(line, "models_loaded"),
                    error: probe_str_field(line, "error"),
                },
            ),
            None => None,
        }
    }
}

/// Whether a `health` reply reports a healthy worker: anything but an
/// explicit boolean `true` under `success` is unhealthy.
pub fn health_reply_ok(line: &str) -> (r: bool)
    ensures
        r == (json_bool_field(line@, "success"@) == Some(true)),
{
    match probe_bool_field(line, "success") {
        Some(b) => b,
        None => false,
    }
}

/// One entry of the worker's model table.
#[derive(Debug, Clone)]
pub struct ModelInfo {
    pub loaded: bool,
    pub exists: bool,
    pub name: String,
    pub path: String,
    pub size: String,
}

/// A worker lifecycle notification for the presentation layer.
#[derive(Debug, Clone)]
pub struct DaemonStatusPayload {
    pub status: String,
    pub message: String,
}

/// A model download progress notification for the presentation layer.
#[derive(Debug, Clone)]
pub struct DownloadProgressPayload {
    pub event_type: String,
    pub model: String,
    pub percent: Option<u32>,
    pub speed: Option<String>,
    pub total_size: Option<String>,
    pub downloaded: Option<u64>,
    pub total: Option<u64>,
}

/// A model loading progress notification for the presentation layer.
#[derive(Debug, Clone)]
pub struct ModelLoadingPayload {
    pub stage: String,
    pub status: String,
    pub message: String,
}

} // verus!
