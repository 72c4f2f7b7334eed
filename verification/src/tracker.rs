//! Previous-foreground-window tracker.
//!
//! Right before the capture gesture fires, the orchestrator records which
//! window the user was working in, so that the translated text can later be
//! pasted back into it.  The tracker never records the translator's own
//! window: restoring focus to itself would be useless and would lose the
//! user's real target.

use vstd::prelude::*;

verus! {

/// Identity of an OS window, reduced to plain values.
#[derive(Clone, Debug)]
pub struct WindowInfo {
    /// Process id of the owning application.
    pub process_id: u64,
    /// Platform-specific window identifier, as decimal or `HWND(..)` text.
    pub window_id: String,
    /// Display name of the owning application, used by the fallback
    /// activation path.
    pub app_name: String,
    /// Window title.
    pub title: String,
}

/// Why restoring focus failed.
#[derive(Clone, Copy, Debug, PartialEq, Eq, Structural)]
pub enum FocusError {
    /// No valid previous window has been recorded.
    NoPreviousWindow,
    /// Both the direct activation path and the fallback failed.
    FocusFailed,
}

/// The single shared previous-window slot, plus this process's own id.
#[derive(Clone, Debug)]
pub struct WindowTracker {
    /// Process id of the running translator, never recorded as a target.
    pub own_pid: u64,
    /// Most recently recorded foreground window, if any.
    pub previous: Option<WindowInfo>,
}

/// Relies on `active_win_pos_rs::get_active_window`: asks the OS for the
/// currently focused window and hands its identity over as plain values;
/// `None` when the query fails.
#[verifier::external_body]
fn query_active_window() -> (r: Option<WindowInfo>) {
    match active_win_pos_rs::get_active_window() {
        Ok(w) => Some(
            WindowInfo {
                process_id: w.process_id,
                window_id: w.window_id,
                app_name: w.app_name,
                title: w.title,
            },
        ),
        Err(()) => None,
    }
}

impl WindowTracker {
    /// Self-exclusion invariant: the recorded window never belongs to this
    /// process.
    pub open spec fn wf(self) -> bool {
        self.previous matches Some(w) ==> w.process_id != self.own_pid
    }

    /// A tracker for the process with the given id, with nothing recorded.
    pub fn new(own_pid: u64) -> (t: WindowTracker)
        ensures
            t.own_pid == own_pid,
            t.previous is None,
            t.wf(),
    {
        WindowTracker { own_pid, previous: None }
    }

    /// Whether the window belongs to the translator process itself.
    pub fn is_own_window(&self, w: &WindowInfo) -> (r: bool)
        ensures
            r == (w.process_id == self.own_pid),
    {
        w.process_id == self.own_pid
    }

    /// The tracker after a focus query answered `query`: the window is
    /// recorded unless the query failed or the window is the translator's
    /// own, in which cases the old snapshot is kept.
    pub open spec fn spec_note(self, query: Option<WindowInfo>) -> WindowTracker {
        match query {
            Some(w) => {
                if w.process_id != self.own_pid {
                    WindowTracker { previous: Some(w), ..self }
                } else {
                    self
                }
            },
            None => self,
        }
    }

    /// Records the window a focus query returned, unless the query failed or
    /// the window is the translator's own; in both of those cases the
    /// previously recorded snapshot is kept.
    pub fn note_window(&mut self, query: Option<WindowInfo>)
        requires
            old(self).wf(),
        ensures
            final(self).wf(),
            *final(self) == old(self).spec_note(query),
    {
        match query {
            Some(w) => {
                if w.process_id != self.own_pid {
                    self.previous = Some(w);
                }
            },
            None => {},
        }
    }

    /// Queries the OS for the focused window and records it, unless the query
    /// fails or the focused window is the translator itself.  Whatever the OS
    /// answers, the slot either keeps its old value or holds a window of
    /// another process.
    pub fn remember_active_window(&mut self)
        requires
            old(self).wf(),
        ensures
            final(self).wf(),
            final(self).own_pid == old(self).own_pid,
            final(self).previous == old(self).previous || (final(self).previous matches Some(w)
                && w.process_id != old(self).own_pid),
    {
        let query = query_active_window();
        self.note_window(query);
    }

    /// The window that focus should be restored to: fails with
    /// [`FocusError::NoPreviousWindow`] exactly when nothing is recorded.
    pub fn focus_target(&self) -> (r: Result<&WindowInfo, FocusError>)
        ensures
            match r {
                Ok(w) => self.previous matches Some(p) && p == *w,
                Err(e) => self.previous is None && e == FocusError::NoPreviousWindow,
            },
    {
        match &self.previous {
            Some(w) => Ok(w),
            None => Err(FocusError::NoPreviousWindow),
        }
    }
}

/// Self-exclusion law: recording a window owned by this process changes
/// nothing, the slot never holds a window of this process, and when no valid
/// window was recorded before such a no-op recording, restoring focus still
/// finds nothing.
pub proof fn lemma_self_exclusion(t: WindowTracker, w: WindowInfo)
    requires
        t.wf(),
        w.process_id == t.own_pid,
    ensures
        t.spec_note(Some(w)) == t,
        t.spec_note(Some(w)).wf(),
        !(t.spec_note(Some(w)).previous matches Some(p) && p.process_id == t.own_pid),
        t.previous is None ==> t.spec_note(Some(w)).previous is None,
{
}

/// Outcome of the platform focus-restoration sequence: the direct activation
/// path wins if the OS reports success; otherwise a fallback activation by
/// application display name is attempted, which requires a non-empty name.
pub fn focus_outcome(preferred_activated: bool, app_name_empty: bool, fallback_ok: bool) -> (r:
    Result<(), FocusError>)
    ensures
        preferred_activated ==> r is Ok,
        !preferred_activated && app_name_empty ==> r == Err::<(), FocusError>(
            FocusError::FocusFailed,
        ),
        !preferred_activated && !app_name_empty ==> (if fallback_ok {
            r is Ok
        } else {
            r == Err::<(), FocusError>(FocusError::FocusFailed)
        }),
{
    if preferred_activated {
        Ok(())
    } else if app_name_empty {
        Err(FocusError::FocusFailed)
    } else if fallback_ok {
        Ok(())
    } else {
        Err(FocusError::FocusFailed)
    }
}

} // verus!
