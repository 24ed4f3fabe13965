//! The visibility state machine of the single overlay surface.
//!
//! Ground truth for visibility is owned by the surface itself and queried
//! live, so every transition takes the current visibility as an input. The
//! machine owns the one piece of cross-call state: the process that held
//! foreground focus immediately before the overlay appeared, remembered on
//! the way up and consumed on dismissal. Each transition returns the
//! commands the embedding application is to carry out, in order.

use vstd::prelude::*;

verus! {

/// One instruction to the embedding application, in the order returned.
#[derive(Clone, Copy, Debug, PartialEq, Eq, Structural)]
pub enum OverlayCommand {
    /// Make the overlay surface visible.
    ShowSurface,
    /// Give the overlay surface input focus.
    FocusSurface,
    /// Make the overlay surface invisible.
    HideSurface,
    /// Reactivate the process with this identifier.
    Reactivate(i32),
}

/// What the previous-focus slot holds after a show: a newly captured
/// foreground process on the way up from hidden, the old holder otherwise.
pub open spec fn show_next_focus(
    prev: Option<i32>,
    visible: bool,
    foreground: Option<i32>,
) -> Option<i32> {
    if !visible && foreground is Some {
        foreground
    } else {
        prev
    }
}

/// The commands a show issues: visibility plus input focus, whether or not
/// the surface was already visible.
pub open spec fn show_commands() -> Seq<OverlayCommand> {
    seq![OverlayCommand::ShowSurface, OverlayCommand::FocusSurface]
}

/// The commands a dismissal issues: hide, then reactivate the remembered
/// process, if one was remembered.
pub open spec fn dismiss_commands(prev: Option<i32>) -> Seq<OverlayCommand> {
    match prev {
        Some(pid) => seq![OverlayCommand::HideSurface, OverlayCommand::Reactivate(pid)],
        None => seq![OverlayCommand::HideSurface],
    }
}

/// The two-state visibility controller with the previous-focus-holder
/// slot. Visibility itself lives in the surface; only the slot is state.
pub struct OverlayLifecycle {
    previous_focus: Option<i32>,
}

impl OverlayLifecycle {
    /// The previous-focus slot; `None` is the sentinel for "no holder
    /// recorded".
    pub closed spec fn prev_focus(&self) -> Option<i32> {
        self.previous_focus
    }

    /// A fresh controller: nothing remembered.
    pub fn new() -> (r: OverlayLifecycle)
        ensures
            r.prev_focus() is None,
    {
        OverlayLifecycle { previous_focus: None }
    }

    /// Shows the overlay. On the way up from hidden the current foreground
    /// process is captured first, so dismissal can restore it; capture is
    /// best effort, and an unqueryable foreground leaves the slot alone.
    /// Re-showing a visible overlay re-asserts focus without re-capturing.
    pub fn show(&mut self, visible: bool, foreground: Option<i32>) -> (cmds: Vec<OverlayCommand>)
        ensures
            final(self).prev_focus() == show_next_focus(
                old(self).prev_focus(),
                visible,
                foreground,
            ),
            cmds@ == show_commands(),
    {
        if !visible {
            if let Some(pid) = foreground {
                self.previous_focus = Some(pid);
            }
        }
        let mut cmds: Vec<OverlayCommand> = Vec::new();
        cmds.push(OverlayCommand::ShowSurface);
        cmds.push(OverlayCommand::FocusSurface);
        proof {
            assert(cmds@ =~= show_commands());
        }
        cmds
    }

    /// Hides the overlay without touching the previous-focus slot.
    pub fn hide_overlay(&mut self) -> (cmds: Vec<OverlayCommand>)
        ensures
            final(self).prev_focus() == old(self).prev_focus(),
            cmds@ == seq![OverlayCommand::HideSurface],
    {
        let mut cmds: Vec<OverlayCommand> = Vec::new();
        cmds.push(OverlayCommand::HideSurface);
        proof {
            assert(cmds@ =~= seq![OverlayCommand::HideSurface]);
        }
        cmds
    }

    /// Dismisses the overlay: hides it, asks for the remembered process to
    /// be reactivated if there is one, and clears the slot either way, so
    /// a later, unrelated dismissal never reactivates a stale process.
    pub fn dismiss(&mut self) -> (cmds: Vec<OverlayCommand>)
        ensures
            final(self).prev_focus() is None,
            cmds@ == dismiss_commands(old(self).prev_focus()),
    {
        let mut cmds: Vec<OverlayCommand> = Vec::new();
        cmds.push(OverlayCommand::HideSurface);
        let prev = self.previous_focus;
        self.previous_focus = None;
        if let Some(pid) = prev {
            cmds.push(OverlayCommand::Reactivate(pid));
        }
        proof {
            assert(cmds@ =~= dismiss_commands(old(self).prev_focus()));
        }
        cmds
    }

    /// Toggles the overlay as one indivisible step: from visible it
    /// behaves exactly like `dismiss`, from hidden exactly like `show`.
    pub fn toggle(&mut self, visible: bool, foreground: Option<i32>) -> (cmds: Vec<OverlayCommand>)
        ensures
            visible ==> final(self).prev_focus() is None && cmds@ == dismiss_commands(
                old(self).prev_focus(),
            ),
            !visible ==> final(self).prev_focus() == show_next_focus(
                old(self).prev_focus(),
                visible,
                foreground,
            ) && cmds@ == show_commands(),
    {
        if visible {
            self.dismiss()
        } else {
            self.show(visible, foreground)
        }
    }
}

/// Showing from hidden and then dismissing restores exactly the process
/// that was foreground at the time of the show, whatever was remembered
/// before.
pub proof fn lemma_show_then_dismiss_restores(prev: Option<i32>, pid: i32)
    ensures
        dismiss_commands(show_next_focus(prev, false, Some(pid))) == seq![
            OverlayCommand::HideSurface,
            OverlayCommand::Reactivate(pid),
        ],
{
    assert(show_next_focus(prev, false, Some(pid)) == Some(pid));
}

} // verus!
