//! Commands that arrive from the media notification of the Android player.
use vstd::prelude::*;
use crate::models::playback::PlayingState;
use crate::text::same_text;
use super::events::resumes_playing;
use super::queue_ops::{queue_empty_message};
use super::support::PREV_RESTART_THRESHOLD_MS;
use super::transport::{
    current_or_first, end_of_queue_message, position_out_of_range_message, quiet, seek_outcome,
    stepped_to,
};
use super::{is_active, PlaybackController, PlaybackRuntimeContext};

verus! {

/// A command of the media notification.
#[derive(Debug, Clone, Copy, PartialEq, Eq, Structural)]
pub enum ControllerAction {
    Next,
    Prev,
    ProcessNativeEvents,
}

/// The command a notification button names: `next` or `prev`.
pub open spec fn controller_action_named(name: Seq<char>) -> Option<ControllerAction> {
    if name == "next"@ {
        Some(ControllerAction::Next)
    } else if name == "prev"@ {
        Some(ControllerAction::Prev)
    } else {
        None
    }
}

/// The command a notification button names, where it names one.
pub fn parse_controller_action(name: &str) -> (r: Option<ControllerAction>)
    ensures
        r == controller_action_named(name@),
{
    if same_text(name, "next") {
        Some(ControllerAction::Next)
    } else if same_text(name, "prev") {
        Some(ControllerAction::Prev)
    } else {
        None
    }
}

/// The message for a transport command without a session.
pub open spec fn no_session_message() -> Seq<char> {
    "No active playback session is available."@
}

impl PlaybackController {
    /// Applies the events of the backend, then carries out the command: "next" and "prev"
    /// need a session and fail without one. When no backend event was applied, the command
    /// acts as [`Self::next`] and [`Self::prev`] say, on the state before the call.
    pub fn execute_controller_action(
        &mut self,
        action: ControllerAction,
        context: Option<&PlaybackRuntimeContext<'_>>,
    ) -> (r: Result<(), String>)
        requires
            old(self).wf(),
        ensures
            Self::grows(*final(self), *old(self)),
            final(self).wf(),
            final(self).events_applied() >= old(self).events_applied(),
            final(self).st().queue@ == old(self).st().queue@,
            Self::same_config(*final(self), *old(self)),
            quiet(*final(self), *old(self)) ==> match action {
                ControllerAction::ProcessNativeEvents => {
                    &&& r is Ok
                    &&& final(self).st() == old(self).st()
                    &&& Self::same_aux(*final(self), *old(self))
                },
                _ => if context is None {
                    &&& r matches Err(e) && e@ == no_session_message()
                    &&& final(self).st() == old(self).st()
                    &&& Self::same_aux(*final(self), *old(self))
                } else if old(self).st().queue@.len() == 0 {
                    &&& r matches Err(e) && e@ == queue_empty_message()
                    &&& final(self).st() == old(self).st()
                } else if action == ControllerAction::Next {
                    let cur = current_or_first(old(self).st());
                    &&& cur == u32::MAX ==> (r matches Err(e) && e@
                        == position_out_of_range_message())
                    &&& cur < u32::MAX && cur + 1 >= old(self).st().queue@.len() ==> (r matches Err(
                        e,
                    ) && e@ == end_of_queue_message())
                    &&& r is Ok ==> stepped_to(*final(self), *old(self), cur, (cur + 1) as u32)
                } else {
                    let cur = current_or_first(old(self).st());
                    r is Ok ==> if cur == 0 || (!is_active(old(self).st().playing_state)
                        && old(self).st().current_position_ms > PREV_RESTART_THRESHOLD_MS) {
                        seek_outcome(*final(self), *old(self), 0)
                    } else if !is_active(old(self).st().playing_state) {
                        stepped_to(*final(self), *old(self), cur, (cur - 1) as u32)
                    } else {
                        ||| seek_outcome(*final(self), *old(self), 0)
                        ||| stepped_to(*final(self), *old(self), cur, (cur - 1) as u32)
                    }
                },
            },
    {
        match self.process_native_events(context) {
            Ok(()) => {},
            Err(e) => {
                return Err(e);
            },
        }
        let ghost mid = *self;
        match action {
            ControllerAction::ProcessNativeEvents => Ok(()),
            ControllerAction::Next => match context {
                Some(c) => match self.next(c) {
                    Ok(_) => Ok(()),
                    Err(e) => Err(e),
                },
                None => Err(String::from_str("No active playback session is available.")),
            },
            ControllerAction::Prev => match context {
                Some(c) => match self.prev(c) {
                    Ok(_) => Ok(()),
                    Err(e) => Err(e),
                },
                None => Err(String::from_str("No active playback session is available.")),
            },
        }
    }
}

} // verus!
