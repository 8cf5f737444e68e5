//! What each window command asks of the host, as a plan the host carries
//! out on the window it finds under the command's label.

use vstd::prelude::*;

verus! {

/// A command on one of the two windows.
#[derive(Clone, Copy, Debug, PartialEq, Eq)]
pub enum WindowCommand {
    /// Hide the main window if it shows, else show and focus it.
    ToggleVisibility,
    /// Show, focus and centre the overlay.
    ShowOverlay,
    /// Hide the overlay.
    HideOverlay,
}

/// One call on a window.
#[derive(Clone, Copy, Debug, PartialEq, Eq)]
pub enum WindowOp {
    Show,
    Hide,
    SetFocus,
    Center,
}

/// The label of the window that a command acts on.
pub open spec fn label_of(command: WindowCommand) -> Seq<char> {
    match command {
        WindowCommand::ToggleVisibility => "main"@,
        WindowCommand::ShowOverlay => "overlay"@,
        WindowCommand::HideOverlay => "overlay"@,
    }
}

/// The calls that a command makes, in order, on a window that is visible or
/// not.
pub open spec fn plan_of(command: WindowCommand, visible: bool) -> Seq<WindowOp> {
    match command {
        WindowCommand::ToggleVisibility => if visible {
            seq![WindowOp::Hide]
        } else {
            seq![WindowOp::Show, WindowOp::SetFocus]
        },
        WindowCommand::ShowOverlay => seq![WindowOp::Show, WindowOp::SetFocus, WindowOp::Center],
        WindowCommand::HideOverlay => seq![WindowOp::Hide],
    }
}

/// The label of the window that a command acts on. Where the host has no
/// window under it, the command succeeds without a call.
pub fn target(command: WindowCommand) -> (label: &'static str)
    ensures
        label@ == label_of(command),
{
    match command {
        WindowCommand::ToggleVisibility => "main",
        WindowCommand::ShowOverlay => "overlay",
        WindowCommand::HideOverlay => "overlay",
    }
}

/// Whether the plan of a command depends on the window being visible, so
/// that the host has to ask before it plans.
pub fn needs_visibility(command: WindowCommand) -> (needed: bool)
    ensures
        needed == (command is ToggleVisibility),
        !needed ==> plan_of(command, true) == plan_of(command, false),
{
    match command {
        WindowCommand::ToggleVisibility => true,
        WindowCommand::ShowOverlay => false,
        WindowCommand::HideOverlay => false,
    }
}

/// The calls that a command makes, in order. The host stops at the first
/// call that fails and reports that failure.
pub fn plan(command: WindowCommand, visible: bool) -> (ops: Vec<WindowOp>)
    ensures
        ops@ == plan_of(command, visible),
{
    let mut ops: Vec<WindowOp> = Vec::new();
    match command {
        WindowCommand::ToggleVisibility => {
            if visible {
                ops.push(WindowOp::Hide);
            } else {
                ops.push(WindowOp::Show);
                ops.push(WindowOp::SetFocus);
            }
        },
        WindowCommand::ShowOverlay => {
            ops.push(WindowOp::Show);
            ops.push(WindowOp::SetFocus);
            ops.push(WindowOp::Center);
        },
        WindowCommand::HideOverlay => {
            ops.push(WindowOp::Hide);
        },
    }
    ops
}

} // verus!
