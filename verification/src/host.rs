//! Plain-value descriptions of the host editor: a read-only snapshot of what
//! the engine needs to query, and the actions it asks the glue to perform.

use vstd::prelude::*;

verus! {

/// Read-only snapshot of host state, gathered by the glue right before a
/// call into the engine.
pub struct HostView {
    /// Width of the host screen, in columns.
    pub columns: usize,
    /// Whether the overlay's window handle is still valid on the host side.
    pub overlay_valid: bool,
    /// Completion candidates for the color-scheme category.
    pub color_schemes: Vec<String>,
}

/// One host-side effect for the glue to perform.
#[derive(Debug, PartialEq)]
pub enum HostAction {
    /// Execute a host command string.
    RunCommand(String),
    /// Re-link the floating-window highlight group to the default float group.
    RelinkFloatHighlight,
    /// Open the transient cursor-anchored float that hides all but the
    /// current line, closing itself on the next cursor movement.
    OpenCursorFloat,
}

/// The mathematical value of a `HostAction`.
pub enum HostActionView {
    RunCommand(Seq<char>),
    RelinkFloatHighlight,
    OpenCursorFloat,
}

impl View for HostAction {
    type V = HostActionView;

    open spec fn view(&self) -> HostActionView {
        match self {
            HostAction::RunCommand(s) => HostActionView::RunCommand(s@),
            HostAction::RelinkFloatHighlight => HostActionView::RelinkFloatHighlight,
            HostAction::OpenCursorFloat => HostActionView::OpenCursorFloat,
        }
    }
}

impl DeepView for HostAction {
    type V = HostActionView;

    open spec fn deep_view(&self) -> HostActionView {
        self.view()
    }
}

} // verus!
