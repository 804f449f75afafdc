//! The application context: one explicit value holding the process-wide
//! mutable state (operation status, mode flags, supervisor flags), mutated
//! only through validated operations.

use vstd::prelude::*;

use vstd::string::StringExecFns;

use crate::modes::{RecordingMode, WorkMode};
use crate::status::{spec_can_be_interrupted, spec_valid_transition, valid_transition, AppStatus};

verus! {

/// The process-wide mutable state of the control plane.
pub struct AppContext {
    /// The operation state machine's current state.
    pub status: AppStatus,
    /// How recording is triggered.
    pub recording_mode: RecordingMode,
    /// What is done with recognized speech.
    pub work_mode: WorkMode,
    /// The worker finished its initialization handshake.
    pub daemon_ready: bool,
    /// A streaming operation holds the worker handle for its whole duration.
    pub streaming: bool,
    /// A cooperative abort was requested for the recording loop.
    pub recording_aborted: bool,
    /// Recognized speech is being processed; the overlay must stay hidden.
    pub ptt_processing: bool,
    /// The push-to-talk key is held down; repeats must be ignored.
    pub ptt_key_pressed: bool,
}

/// A rejected transition request, carrying both endpoints.
#[derive(Debug, Clone, Copy, PartialEq, Eq, Structural)]
pub struct InvalidTransition {
    pub from: AppStatus,
    pub to: AppStatus,
}

/// What a permitted interrupt asks the surrounding loops to do.
#[derive(Debug, Clone, Copy, PartialEq, Eq, Structural)]
pub enum InterruptAction {
    /// Set the cooperative abort flag consumed by the recording loop.
    AbortRecording,
    /// Send a best-effort interrupt request to the worker.
    NotifyWorker,
    /// Nothing to do beyond the local state change.
    NoAction,
}

/// A permitted interrupt: the state it preempted and the action it requires.
#[derive(Debug, Clone, Copy, PartialEq, Eq, Structural)]
pub struct InterruptGrant {
    pub previous: AppStatus,
    pub action: InterruptAction,
}

/// A rejected interrupt: the priority was too low for the current state.
#[derive(Debug, Clone, Copy, PartialEq, Eq, Structural)]
pub struct InterruptDenied {
    pub status: AppStatus,
    pub priority: u8,
}

/// A mode string that decodes to no mode.
#[derive(Debug, Clone)]
pub struct InvalidMode {
    pub given: String,
}

/// Whether a recording-mode change must also interrupt the worker.
#[derive(Debug, Clone, Copy, PartialEq, Eq, Structural)]
pub enum ModeChangeEffect {
    /// Switched to continuous: the abort flag was cleared, nothing to send.
    NoWorkerAction,
    /// Switched away from continuous: send a priority-1 interrupt request.
    NotifyWorkerInterrupt,
}

/// Why a recording request was turned away.
#[derive(Debug, Clone, Copy, PartialEq, Eq, Structural)]
pub enum RecordReject {
    /// A streaming operation holds the worker handle.
    StreamingInProgress,
    /// A pending abort was consumed by this request.
    Cancelled,
    /// A continuous-mode request arrived while the global mode is not
    /// continuous.
    ModeChanged,
}

/// The admission decision for a recording request.
#[derive(Debug, Clone, Copy, PartialEq, Eq, Structural)]
pub enum RecordAdmission {
    Proceed,
    Reject(RecordReject),
}

/// What a mode change does to the push-to-talk shortcut registration.
#[derive(Debug, Clone, Copy, PartialEq, Eq, Structural)]
pub enum ShortcutPlan {
    /// A session is active: defer any registration change.
    LeaveAlone,
    /// Register the shortcut from the persisted configuration.
    RegisterFromConfig,
    /// Unregister the shortcut: continuous mode needs none.
    Unregister,
}

/// What the supervisor must do to guarantee a healthy worker.
#[derive(Debug, Clone, Copy, PartialEq, Eq, Structural)]
pub enum EnsureAction {
    /// A handle exists and is healthy, or a stream is in flight: keep it.
    KeepCurrent,
    /// A handle exists but failed its health check: kill it, then spawn.
    ReplaceUnhealthy,
    /// No handle exists: spawn a fresh worker.
    SpawnNew,
}

/// What a push-to-talk key press asks the surrounding loops to do.
#[derive(Debug, Clone, Copy, PartialEq, Eq, Structural)]
pub enum PttPressPlan {
    /// The key was already down: a repeat, to be ignored.
    AlreadyPressed,
    /// Start the recorder and notify the worker of the press.
    StartRecording,
}

/// What a push-to-talk key release asks the surrounding loops to do.
#[derive(Debug, Clone, Copy, PartialEq, Eq, Structural)]
pub struct PttReleasePlan {
    /// Hand the captured audio to the worker (false: only notify the
    /// release).
    pub send_audio: bool,
    /// Ask for an assistant reply after recognition.
    pub auto_chat: bool,
}

impl InvalidMode {
    pub fn recording_message(&self) -> (r: String)
        ensures
            r@ == "Invalid recording mode: "@ + self.given@,
    {
        let head: String = "Invalid recording mode: ".to_owned();
        head.concat(self.given.as_str())
    }

    pub fn work_message(&self) -> (r: String)
        ensures
            r@ == "Invalid work mode: "@ + self.given@,
    {
        let head: String = "Invalid work mode: ".to_owned();
        head.concat(self.given.as_str())
    }
}

impl RecordReject {
    /// The error string the caller reports for this rejection.
    pub open spec fn spec_message(self) -> Seq<char> {
        match self {
            RecordReject::StreamingInProgress => "Recording blocked: streaming in progress"@,
            RecordReject::Cancelled => "Recording cancelled"@,
            RecordReject::ModeChanged => "Recording mode changed"@,
        }
    }

    pub fn message(&self) -> (r: &'static str)
        ensures
            r@ == self.spec_message(),
    {
        match self {
            RecordReject::StreamingInProgress => "Recording blocked: streaming in progress",
            RecordReject::Cancelled => "Recording cancelled",
            RecordReject::ModeChanged => "Recording mode changed",
        }
    }
}

impl AppContext {
    /// The initial state: idle, push-to-talk, conversation, no worker yet.
    pub fn new() -> (r: AppContext)
        ensures
            r.status == AppStatus::Idle,
            r.recording_mode == RecordingMode::PushToTalk,
            r.work_mode == WorkMode::Conversation,
            !r.daemon_ready,
            !r.streaming,
            !r.recording_aborted,
            !r.ptt_processing,
            !r.ptt_key_pressed,
    {
        AppContext {
            status: AppStatus::Idle,
            recording_mode: RecordingMode::PushToTalk,
            work_mode: WorkMode::Conversation,
            daemon_ready: false,
            streaming: false,
            recording_aborted: false,
            ptt_processing: false,
            ptt_key_pressed: false,
        }
    }

    /// Advance the operation state machine.  Exactly the transitions of the
    /// table succeed; a rejected request leaves the state unchanged and
    /// reports both endpoints.
    pub fn transition_status(&mut self, new_status: AppStatus) -> (r: Result<
        (),
        InvalidTransition,
    >)
        ensures
            r is Ok <==> spec_valid_transition(old(self).status, new_status),
            r is Ok ==> *final(self) == (AppContext { status: new_status, ..*old(self) }),
            r is Err ==> *final(self) == *old(self),
            r matches Err(e) ==> e.from == old(self).status && e.to == new_status,
    {
        if valid_transition(self.status, new_status) {
            self.status = new_status;
            Ok(())
        } else {
            Err(InvalidTransition { from: self.status, to: new_status })
        }
    }

    /// Request a priority-based interruption.  A permitted interrupt of
    /// priority 1 or 2 forces the state back to `Idle`; priority 3 leaves the
    /// state alone.  Preempting a recording sets the abort flag; preempting
    /// generation or playback asks for a best-effort worker notification.
    pub fn interrupt_operation(&mut self, priority: u8) -> (r: Result<
        InterruptGrant,
        InterruptDenied,
    >)
        ensures
            r is Ok <==> spec_can_be_interrupted(old(self).status, priority),
            r matches Ok(g) ==> {
                &&& g.previous == old(self).status
                &&& g.action == (match old(self).status {
                    AppStatus::Recording => InterruptAction::AbortRecording,
                    AppStatus::LlmProcessing
                    | AppStatus::TtsProcessing
                    | AppStatus::Playing => InterruptAction::NotifyWorker,
                    _ => InterruptAction::NoAction,
                })
                &&& final(self).status == (if priority <= 2 {
                    AppStatus::Idle
                } else {
                    old(self).status
                })
                &&& final(self).recording_aborted == (old(self).status == AppStatus::Recording
                    || old(self).recording_aborted)
                &&& final(self).recording_mode == old(self).recording_mode
                &&& final(self).work_mode == old(self).work_mode
                &&& final(self).daemon_ready == old(self).daemon_ready
                &&& final(self).streaming == old(self).streaming
                &&& final(self).ptt_processing == old(self).ptt_processing
                &&& final(self).ptt_key_pressed == old(self).ptt_key_pressed
            },
            r is Err ==> *final(self) == *old(self),
            r matches Err(d) ==> d.status == old(self).status && d.priority == priority,
    {
        let current = self.status;
        if current.can_be_interrupted(priority) {
            let action = match current {
                AppStatus::Recording => {
                    self.recording_aborted = true;
                    InterruptAction::AbortRecording
                },
                AppStatus::LlmProcessing | AppStatus::TtsProcessing | AppStatus::Playing => {
                    InterruptAction::NotifyWorker
                },
                _ => InterruptAction::NoAction,
            };
            if priority <= 2 {
                self.status = AppStatus::Idle;
            }
            Ok(InterruptGrant { previous: current, action })
        } else {
            Err(InterruptDenied { status: current, priority })
        }
    }

    /// Change the recording mode.  Switching to continuous clears the abort
    /// flag so new recordings may start; switching away sets it to abort an
    /// ongoing continuous recording and asks for a priority-1 interrupt to be
    /// sent to the worker.
    pub fn set_recording_mode(&mut self, mode: &str) -> (r: Result<ModeChangeEffect, InvalidMode>)
        ensures
            r is Ok <==> RecordingMode::spec_from_str(mode@) is Some,
            r matches Ok(effect) ==> {
                &&& Some(final(self).recording_mode) == RecordingMode::spec_from_str(mode@)
                &&& final(self).recording_aborted == (final(self).recording_mode
                    != RecordingMode::Continuous)
                &&& effect == (if final(self).recording_mode == RecordingMode::Continuous {
                    ModeChangeEffect::NoWorkerAction
                } else {
                    ModeChangeEffect::NotifyWorkerInterrupt
                })
                &&& *final(self) == (AppContext {
                    recording_mode: final(self).recording_mode,
                    recording_aborted: final(self).recording_aborted,
                    ..*old(self)
                })
            },
            r is Err ==> *final(self) == *old(self),
            r matches Err(e) ==> e.given@ == mode@,
    {
        match RecordingMode::from_str(mode) {
            Some(new_mode) => {
                self.recording_mode = new_mode;
                if new_mode == RecordingMode::Continuous {
                    self.recording_aborted = false;
                    Ok(ModeChangeEffect::NoWorkerAction)
                } else {
                    self.recording_aborted = true;
                    Ok(ModeChangeEffect::NotifyWorkerInterrupt)
                }
            },
            None => Err(InvalidMode { given: mode.to_owned() }),
        }
    }

    /// Change the work mode.
    pub fn set_work_mode(&mut self, mode: &str) -> (r: Result<(), InvalidMode>)
        ensures
            r is Ok <==> WorkMode::spec_from_str(mode@) is Some,
            r is Ok ==> Some(final(self).work_mode) == WorkMode::spec_from_str(mode@)
                && *final(self) == (AppContext { work_mode: final(self).work_mode, ..*old(self) }),
            r is Err ==> *final(self) == *old(self),
            r matches Err(e) ==> e.given@ == mode@,
    {
        match WorkMode::from_str(mode) {
            Some(new_mode) => {
                self.work_mode = new_mode;
                Ok(())
            },
            None => Err(InvalidMode { given: mode.to_owned() }),
        }
    }

    pub fn get_recording_mode(&self) -> (r: String)
        ensures
            r@ == self.recording_mode.spec_str(),
    {
        self.recording_mode.as_str().to_owned()
    }

    pub fn get_work_mode(&self) -> (r: String)
        ensures
            r@ == self.work_mode.spec_str(),
    {
        self.work_mode.as_str().to_owned()
    }

    pub fn get_app_status(&self) -> (r: String)
        ensures
            r@ == self.status.spec_str(),
    {
        self.status.as_str().to_owned()
    }

    /// Admit or turn away a recording request before any worker call: a
    /// stream in flight blocks it, a pending abort consumes it, and a
    /// continuous-mode request is turned away once the global mode has moved
    /// on.
    pub fn record_audio_admission(&mut self, mode: &str) -> (r: RecordAdmission)
        ensures
            old(self).streaming ==> r == RecordAdmission::Reject(RecordReject::StreamingInProgress)
                && *final(self) == *old(self),
            !old(self).streaming && old(self).recording_aborted ==> r == RecordAdmission::Reject(
                RecordReject::Cancelled,
            ) && *final(self) == (AppContext { recording_aborted: false, ..*old(self) }),
            !old(self).streaming && !old(self).recording_aborted ==> {
                &&& *final(self) == *old(self)
                &&& r == (if mode@ == "continuous"@ && old(self).recording_mode
                    != RecordingMode::Continuous {
                    RecordAdmission::Reject(RecordReject::ModeChanged)
                } else {
                    RecordAdmission::Proceed
                })
            },
    {
        if self.streaming {
            return RecordAdmission::Reject(RecordReject::StreamingInProgress);
        }
        if self.recording_aborted {
            self.recording_aborted = false;
            return RecordAdmission::Reject(RecordReject::Cancelled);
        }
        let continuous_request = crate::strutil::str_eq(mode, "continuous");
        if continuous_request && self.recording_mode != RecordingMode::Continuous {
            return RecordAdmission::Reject(RecordReject::ModeChanged);
        }
        RecordAdmission::Proceed
    }

    /// What the supervisor must do, given whether a handle exists and what a
    /// health check of it returned.  While a stream is in flight the check is
    /// skipped so it cannot contend for the handle.
    pub fn ensure_daemon_running(&self, has_handle: bool, healthy: bool) -> (r: EnsureAction)
        ensures
            has_handle && self.streaming ==> r == EnsureAction::KeepCurrent,
            has_handle && !self.streaming && healthy ==> r == EnsureAction::KeepCurrent,
            has_handle && !self.streaming && !healthy ==> r == EnsureAction::ReplaceUnhealthy,
            !has_handle ==> r == EnsureAction::SpawnNew,
    {
        if has_handle {
            if self.streaming {
                EnsureAction::KeepCurrent
            } else if healthy {
                EnsureAction::KeepCurrent
            } else {
                EnsureAction::ReplaceUnhealthy
            }
        } else {
            EnsureAction::SpawnNew
        }
    }

    /// Whether the worker has finished its initialization handshake.
    pub fn is_daemon_ready(&self) -> (r: bool)
        ensures
            r == self.daemon_ready,
    {
        self.daemon_ready
    }

    /// Mark the worker ready once the handshake has completed.
    pub fn set_daemon_ready(&mut self)
        ensures
            *final(self) == (AppContext { daemon_ready: true, ..*old(self) }),
    {
        self.daemon_ready = true;
    }

    /// Mark a streaming operation as holding the worker handle.
    pub fn begin_streaming(&mut self)
        ensures
            *final(self) == (AppContext { streaming: true, ..*old(self) }),
    {
        self.streaming = true;
    }

    /// Release the streaming flag once the stream has finished or failed.
    pub fn end_streaming(&mut self)
        ensures
            *final(self) == (AppContext { streaming: false, ..*old(self) }),
    {
        self.streaming = false;
    }

    /// Whether a periodic health check must skip itself instead of contending
    /// for the handle.
    pub fn health_check_skipped(&self) -> (r: bool)
        ensures
            r == self.streaming,
    {
        self.streaming
    }

    /// Consume a pending abort while a request round trip is in flight: the
    /// flag is cleared and the round trip returns a cancelled result
    /// instead of reading further.
    pub fn consume_abort(&mut self) -> (r: bool)
        ensures
            r == old(self).recording_aborted,
            *final(self) == (AppContext { recording_aborted: false, ..*old(self) }),
    {
        let aborted = self.recording_aborted;
        self.recording_aborted = false;
        aborted
    }

    /// The health result reported while a stream holds the worker handle,
    /// instead of contending for it: `None` when no stream is in flight and
    /// the real check must run.
    pub fn streaming_health_result(&self) -> (r: Option<crate::results::HealthResult>)
        ensures
            r is Some <==> self.streaming,
            r matches Some(h) ==> {
                &&& h.success
                &&& h.status matches Some(s) && s@ == "streaming"@
                &&& h.command_count is None
                &&& h.models_loaded is None
                &&& h.error is None
            },
    {
        if self.streaming {
            Some(
                crate::results::HealthResult {
                    success: true,
                    status: Some("streaming".to_owned()),
                    command_count: None,
                    models_loaded: None,
                    error: None,
                },
            )
        } else {
            None
        }
    }

    /// What a recording-mode change does to the push-to-talk shortcut,
    /// once the worker was notified: nothing while a recording or
    /// listening session is active; otherwise the shortcut is registered
    /// from configuration in push-to-talk mode and unregistered in
    /// continuous mode.
    pub fn shortcut_update_plan(&self) -> (r: ShortcutPlan)
        ensures
            (self.status == AppStatus::Recording || self.status == AppStatus::Listening) ==> r
                == ShortcutPlan::LeaveAlone,
            !(self.status == AppStatus::Recording || self.status == AppStatus::Listening) ==> r
                == (if self.recording_mode == RecordingMode::PushToTalk {
                ShortcutPlan::RegisterFromConfig
            } else {
                ShortcutPlan::Unregister
            }),
    {
        if matches!(self.status, AppStatus::Recording | AppStatus::Listening) {
            ShortcutPlan::LeaveAlone
        } else if self.recording_mode == RecordingMode::PushToTalk {
            ShortcutPlan::RegisterFromConfig
        } else {
            ShortcutPlan::Unregister
        }
    }

    /// Handle a push-to-talk key press, filtering out key repeats.
    pub fn ptt_press(&mut self) -> (r: PttPressPlan)
        ensures
            old(self).ptt_key_pressed ==> r == PttPressPlan::AlreadyPressed
                && *final(self) == *old(self),
            !old(self).ptt_key_pressed ==> r == PttPressPlan::StartRecording && *final(self) == (
            AppContext { ptt_key_pressed: true, ..*old(self) }),
    {
        if self.ptt_key_pressed {
            PttPressPlan::AlreadyPressed
        } else {
            self.ptt_key_pressed = true;
            PttPressPlan::StartRecording
        }
    }

    /// Handle a push-to-talk key release.  The captured audio, if any, goes
    /// to the worker; a reply is requested only in conversation mode.
    pub fn ptt_release(&mut self, got_audio: bool) -> (r: PttReleasePlan)
        ensures
            *final(self) == (AppContext { ptt_key_pressed: false, ..*old(self) }),
            r.send_audio == got_audio,
            r.auto_chat == (old(self).work_mode == WorkMode::Conversation),
    {
        self.ptt_key_pressed = false;
        PttReleasePlan { send_audio: got_audio, auto_chat: self.work_mode == WorkMode::Conversation }
    }

    /// Adopt the worker's persisted modes after startup, ignoring fields that
    /// are absent or do not decode.
    pub fn sync_modes(&mut self, work_mode: &Option<String>, recording_mode: &Option<String>)
        ensures
            final(self).work_mode == (match *work_mode {
                Some(ref s) => match WorkMode::spec_from_str(s@) {
                    Some(m) => m,
                    None => old(self).work_mode,
                },
                None => old(self).work_mode,
            }),
            final(self).recording_mode == (match *recording_mode {
                Some(ref s) => match RecordingMode::spec_from_str(s@) {
                    Some(m) => m,
                    None => old(self).recording_mode,
                },
                None => old(self).recording_mode,
            }),
            *final(self) == (AppContext {
                work_mode: final(self).work_mode,
                recording_mode: final(self).recording_mode,
                ..*old(self)
            }),
    {
        if let Some(s) = work_mode {
            if let Some(m) = WorkMode::from_str(s.as_str()) {
                self.work_mode = m;
            }
        }
        if let Some(s) = recording_mode {
            if let Some(m) = RecordingMode::from_str(s.as_str()) {
                self.recording_mode = m;
            }
        }
    }
}

} // verus!
