//! The side channel: the worker's secondary output stream carries free-form
//! status events, one JSON object per line with a `ptt_event` discriminant.
//! A dedicated reader loop parses each line and dispatches pure
//! notification effects; lines that do not parse, or lack the
//! discriminant, are dropped.

use vstd::prelude::*;

use crate::context::AppContext;
use crate::protocol::{json_str_field, probe_str_field};
use crate::strutil::{opt_view, str_eq};

verus! {

/// One event read from the side channel.  Payload fields are carried as the
/// worker sent them; an absent field stays absent rather than failing the
/// whole event.
#[derive(Debug, Clone)]
pub enum SideChannelEvent {
    Listening,
    Detected,
    Recording,
    Processing,
    Idle,
    UserMessage { text: Option<String> },
    AssistantChunk { content: Option<String> },
    AssistantDone { content: Option<String> },
    AudioChunk { audio_path: Option<String>, text: Option<String> },
    WorkerError { error: Option<String> },
    Unknown,
}

/// The event a side-channel line denotes.  False when the line has no
/// string `ptt_event` field (such a line is dropped).
pub open spec fn spec_side_event(l: Seq<char>, ev: SideChannelEvent) -> bool {
    match json_str_field(l, "ptt_event"@) {
        None => false,
        Some(d) => if d == "listening"@ {
            ev == SideChannelEvent::Listening
        } else if d == "detected"@ {
            ev == SideChannelEvent::Detected
        } else if d == "recording"@ {
            ev == SideChannelEvent::Recording
        } else if d == "processing"@ {
            ev == SideChannelEvent::Processing
        } else if d == "idle"@ {
            ev == SideChannelEvent::Idle
        } else if d == "user_message"@ {
            ev matches SideChannelEvent::UserMessage { text } && opt_view(text) == json_str_field(
                l,
                "text"@,
            )
        } else if d == "assistant_chunk"@ {
            ev matches SideChannelEvent::AssistantChunk { content } && opt_view(content)
                == json_str_field(l, "content"@)
        } else if d == "assistant_done"@ {
            ev matches SideChannelEvent::AssistantDone { content } && opt_view(content)
                == json_str_field(l, "content"@)
        } else if d == "audio_chunk"@ {
            ev matches SideChannelEvent::AudioChunk { audio_path, text } && opt_view(audio_path)
                == json_str_field(l, "audio_path"@) && opt_view(text) == json_str_field(
                l,
                "text"@,
            )
        } else if d == "error"@ {
            ev matches SideChannelEvent::WorkerError { error } && opt_view(error)
                == json_str_field(l, "error"@)
        } else {
            ev == SideChannelEvent::Unknown
        },
    }
}

/// Parse one side-channel line.  `None` exactly when the line lacks a
/// string `ptt_event` field; the reader loop drops such lines.
pub fn parse_side_channel_line(line: &str) -> (r: Option<SideChannelEvent>)
    ensures
        r is Some <==> json_str_field(line@, "ptt_event"@) is Some,
        r matches Some(ev) ==> spec_side_event(line@, ev),
{
    match probe_str_field(line, "ptt_event") {
        None => None,
        Some(d) => Some(
            if str_eq(d.as_str(), "listening") {
                SideChannelEvent::Listening
            } else if str_eq(d.as_str(), "detected") {
                SideChannelEvent::Detected
            } else if str_eq(d.as_str(), "recording") {
                SideChannelEvent::Recording
            } else if str_eq(d.as_str(), "processing") {
                SideChannelEvent::Processing
            } else if str_eq(d.as_str(), "idle") {
                SideChannelEvent::Idle
            } else if str_eq(d.as_str(), "user_message") {
                SideChannelEvent::UserMessage { text: probe_str_field(line, "text") }
            } else if str_eq(d.as_str(), "assistant_chunk") {
                SideChannelEvent::AssistantChunk { content: probe_str_field(line, "content") }
            } else if str_eq(d.as_str(), "assistant_done") {
                SideChannelEvent::AssistantDone { content: probe_str_field(line, "content") }
            } else if str_eq(d.as_str(), "audio_chunk") {
                SideChannelEvent::AudioChunk {
                    audio_path: probe_str_field(line, "audio_path"),
                    text: probe_str_field(line, "text"),
                }
            } else if str_eq(d.as_str(), "error") {
                SideChannelEvent::WorkerError { error: probe_str_field(line, "error") }
            } else {
                SideChannelEvent::Unknown
            },
        ),
    }
}

/// What the reader loop does to the overlay window for one event.
#[derive(Debug, Clone, Copy, PartialEq, Eq, Structural)]
pub enum OverlayPlan {
    /// Make the overlay interactive, show it, and send it the state.
    ShowState,
    /// Send the overlay the processing state without showing it.
    EmitProcessing,
    /// Hide the overlay and send it the idle state.
    HideIdle,
    /// Make the overlay click-through, hide it, and send it the idle state.
    DismissQuiet,
    /// Make the overlay click-through and hide it, sending nothing.
    DismissSilent,
    /// Leave the overlay alone.
    Leave,
}

/// The notification effects of one side-channel event.  The multiplexer
/// holds no business logic beyond this dispatch.
#[derive(Debug, Clone)]
pub struct SideEffectPlan {
    /// What to do with the overlay window.
    pub overlay: OverlayPlan,
    /// The state string to send to the main window, if any.
    pub main_state: Option<&'static str>,
    /// Recognized speech to show, from a `user_message` event.
    pub user_message: Option<String>,
    /// A partial reply to append, from an `assistant_chunk` event.
    pub assistant_chunk: Option<String>,
    /// The full reply, from an `assistant_done` event.
    pub assistant_done: Option<String>,
    /// A playable audio reference and its source text; forwarded only when
    /// both are present.
    pub audio_chunk: Option<(String, String)>,
    /// An error string to surface, from an `error` event.
    pub error: Option<String>,
}

impl AppContext {
    /// Dispatch one side-channel event: adjust the processing guard flag and
    /// return the notification effects the reader loop must perform, in
    /// order.  Recognized speech raises the guard so the overlay stays
    /// hidden while the reply is generated; a finished reply or an error
    /// clears it.
    pub fn handle_side_event(&mut self, ev: &SideChannelEvent) -> (r: SideEffectPlan)
        ensures
            final(self).ptt_processing == (match ev {
                SideChannelEvent::UserMessage { .. } => true,
                SideChannelEvent::AssistantDone { .. } => false,
                SideChannelEvent::WorkerError { .. } => false,
                _ => old(self).ptt_processing,
            }),
            *final(self) == (AppContext { ptt_processing: final(self).ptt_processing, ..*old(self) }),
            r.overlay == (match ev {
                SideChannelEvent::Listening
                | SideChannelEvent::Detected
                | SideChannelEvent::Recording => OverlayPlan::ShowState,
                SideChannelEvent::Processing => OverlayPlan::EmitProcessing,
                SideChannelEvent::Idle | SideChannelEvent::WorkerError { .. } => OverlayPlan::HideIdle,
                SideChannelEvent::UserMessage { .. } => OverlayPlan::DismissQuiet,
                SideChannelEvent::AssistantChunk { .. }
                | SideChannelEvent::AssistantDone { .. } => OverlayPlan::DismissSilent,
                _ => OverlayPlan::Leave,
            }),
            (match ev {
                SideChannelEvent::Listening => r.main_state matches Some(s) && s@ == "listening"@,
                SideChannelEvent::Detected => r.main_state matches Some(s) && s@ == "detected"@,
                SideChannelEvent::Recording => r.main_state matches Some(s) && s@ == "recording"@,
                SideChannelEvent::Processing => r.main_state matches Some(s) && s@ == "processing"@,
                SideChannelEvent::Idle
                | SideChannelEvent::UserMessage { .. }
                | SideChannelEvent::AssistantChunk { .. }
                | SideChannelEvent::AssistantDone { .. } => r.main_state matches Some(s) && s@
                    == "idle"@,
                SideChannelEvent::WorkerError { .. } => r.main_state matches Some(s) && s@
                    == "error"@,
                _ => r.main_state is None,
            }),
            r.user_message == (match ev {
                SideChannelEvent::UserMessage { text } => *text,
                _ => None::<String>,
            }),
            r.assistant_chunk == (match ev {
                SideChannelEvent::AssistantChunk { content } => *content,
                _ => None::<String>,
            }),
            r.assistant_done == (match ev {
                SideChannelEvent::AssistantDone { content } => *content,
                _ => None::<String>,
            }),
            (match ev {
                SideChannelEvent::AudioChunk { audio_path: Some(p), text: Some(t) } => r.audio_chunk
                    matches Some(pt) && pt.0 == *p && pt.1 == *t,
                _ => r.audio_chunk is None,
            }),
            r.error == (match ev {
                SideChannelEvent::WorkerError { error } => *error,
                _ => None::<String>,
            }),
    {
        match ev {
            SideChannelEvent::Listening => SideEffectPlan {
                overlay: OverlayPlan::ShowState,
                main_state: Some("listening"),
                user_message: None,
                assistant_chunk: None,
                assistant_done: None,
                audio_chunk: None,
                error: None,
            },
            SideChannelEvent::Detected => SideEffectPlan {
                overlay: OverlayPlan::ShowState,
                main_state: Some("detected"),
                user_message: None,
                assistant_chunk: None,
                assistant_done: None,
                audio_chunk: None,
                error: None,
            },
            SideChannelEvent::Recording => SideEffectPlan {
                overlay: OverlayPlan::ShowState,
                main_state: Some("recording"),
                user_message: None,
                assistant_chunk: None,
                assistant_done: None,
                audio_chunk: None,
                error: None,
            },
            SideChannelEvent::Processing => SideEffectPlan {
                overlay: OverlayPlan::EmitProcessing,
                main_state: Some("processing"),
                user_message: None,
                assistant_chunk: None,
                assistant_done: None,
                audio_chunk: None,
                error: None,
            },
            SideChannelEvent::Idle => SideEffectPlan {
                overlay: OverlayPlan::HideIdle,
                main_state: Some("idle"),
                user_message: None,
                assistant_chunk: None,
                assistant_done: None,
                audio_chunk: None,
                error: None,
            },
            SideChannelEvent::UserMessage { text } => {
                self.ptt_processing = true;
                SideEffectPlan {
                    overlay: OverlayPlan::DismissQuiet,
                    main_state: Some("idle"),
                    user_message: text.clone(),
                    assistant_chunk: None,
                    assistant_done: None,
                    audio_chunk: None,
                    error: None,
                }
            },
            SideChannelEvent::AssistantChunk { content } => SideEffectPlan {
                overlay: OverlayPlan::DismissSilent,
                main_state: Some("idle"),
                user_message: None,
                assistant_chunk: content.clone(),
                assistant_done: None,
                audio_chunk: None,
                error: None,
            },
            SideChannelEvent::AssistantDone { content } => {
                self.ptt_processing = false;
                SideEffectPlan {
                    overlay: OverlayPlan::DismissSilent,
                    main_state: Some("idle"),
                    user_message: None,
                    assistant_chunk: None,
                    assistant_done: content.clone(),
                    audio_chunk: None,
                    error: None,
                }
            },
            SideChannelEvent::AudioChunk { audio_path, text } => {
                let chunk = match (audio_path, text) {
                    (Some(p), Some(t)) => Some((p.clone(), t.clone())),
                    _ => None,
                };
                SideEffectPlan {
                    overlay: OverlayPlan::Leave,
                    main_state: None,
                    user_message: None,
                    assistant_chunk: None,
                    assistant_done: None,
                    audio_chunk: chunk,
                    error: None,
                }
            },
            SideChannelEvent::WorkerError { error } => {
                self.ptt_processing = false;
                SideEffectPlan {
                    overlay: OverlayPlan::HideIdle,
                    main_state: Some("error"),
                    user_message: None,
                    assistant_chunk: None,
                    assistant_done: None,
                    audio_chunk: None,
                    error: error.clone(),
                }
            },
            SideChannelEvent::Unknown => SideEffectPlan {
                overlay: OverlayPlan::Leave,
                main_state: None,
                user_message: None,
                assistant_chunk: None,
                assistant_done: None,
                audio_chunk: None,
                error: None,
            },
        }
    }
}

} // verus!
