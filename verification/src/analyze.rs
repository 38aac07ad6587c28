//! The shared state that cancels and pauses the analysis of a URL (the
//! YouTube search loop of a Deezer playlist).
use vstd::prelude::*;

verus! {

/// Flags that cancel or pause the analysis, and the process it is running.
#[derive(Debug, Clone, Copy, PartialEq, Eq)]
pub struct AnalyzeState {
    pub cancel_flag: bool,
    pub pause_flag: bool,
    pub current_pid: Option<u32>,
}

/// The state with nothing cancelled, paused or running.
pub open spec fn idle_state() -> AnalyzeState {
    AnalyzeState { cancel_flag: false, pause_flag: false, current_pid: None }
}

/// The state after cancelling: the cancel flag is set.
pub open spec fn cancel_spec(s: AnalyzeState) -> AnalyzeState {
    AnalyzeState { cancel_flag: true, ..s }
}

/// The state after toggling pause: the pause flag is flipped.
pub open spec fn toggle_pause_spec(s: AnalyzeState) -> AnalyzeState {
    AnalyzeState { pause_flag: !s.pause_flag, ..s }
}

impl AnalyzeState {
    /// A state with nothing cancelled, paused or running.
    pub fn new() -> (r: AnalyzeState)
        ensures
            r == idle_state(),
    {
        AnalyzeState { cancel_flag: false, pause_flag: false, current_pid: None }
    }

    /// Resets the flags for a new analysis.
    pub fn reset(&mut self)
        ensures
            *final(self) == idle_state(),
    {
        self.cancel_flag = false;
        self.pause_flag = false;
        self.current_pid = None;
    }

    /// Whether the analysis was cancelled.
    pub fn is_cancelled(&self) -> (r: bool)
        ensures
            r == self.cancel_flag,
    {
        self.cancel_flag
    }

    /// Whether the analysis is paused.
    pub fn is_paused(&self) -> (r: bool)
        ensures
            r == self.pause_flag,
    {
        self.pause_flag
    }
}

impl AnalyzeState {
    /// Records the process that runs the current search, where it has an ID.
    pub fn process_started(&mut self, pid: Option<u32>)
        ensures
            *final(self) == (match pid {
                Some(p) => AnalyzeState { current_pid: Some(p), ..*old(self) },
                None => *old(self),
            }),
    {
        if let Some(p) = pid {
            self.current_pid = Some(p);
        }
    }

    /// Forgets the process once it has finished.
    pub fn process_finished(&mut self)
        ensures
            *final(self) == (AnalyzeState { current_pid: None, ..*old(self) }),
    {
        self.current_pid = None;
    }
}

/// Cancels the current analysis; gives the process to kill, if one is running.
pub fn cancel_analyze(state: &mut AnalyzeState) -> (r: Option<u32>)
    ensures
        *final(state) == cancel_spec(*old(state)),
        r == old(state).current_pid,
{
    state.cancel_flag = true;
    state.current_pid
}

/// Toggles pause on the current analysis; gives the new pause state.
pub fn toggle_pause_analyze(state: &mut AnalyzeState) -> (r: bool)
    ensures
        *final(state) == toggle_pause_spec(*old(state)),
        r == final(state).pause_flag,
{
    let new_state = !state.pause_flag;
    state.pause_flag = new_state;
    new_state
}

/// Toggling pause twice leaves the state as it was.
pub proof fn law_toggle_twice(s: AnalyzeState)
    ensures
        toggle_pause_spec(toggle_pause_spec(s)) == s,
{
}

/// After a reset the analysis is neither cancelled nor paused, whatever came before;
/// after a cancel it is cancelled until the next reset, whatever pausing does.
pub proof fn law_cancel_until_reset(s: AnalyzeState)
    ensures
        cancel_spec(s).cancel_flag,
        toggle_pause_spec(cancel_spec(s)).cancel_flag,
        !idle_state().cancel_flag && !idle_state().pause_flag,
{
}

} // verus!
