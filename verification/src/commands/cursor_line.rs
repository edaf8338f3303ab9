//! The cursor-line override: a transient float that hides everything but the
//! current line until the cursor moves.

use vstd::prelude::*;
use vstd::string::StringExecFns;

use super::ModeCommand;
use crate::config::Config;
use crate::host::HostAction;
use crate::host::HostActionView;
use crate::host::HostView;

verus! {

/// The cursor-line mode; carries no parameters.
#[derive(Debug, PartialEq)]
pub struct Command {}

impl Clone for Command {
    fn clone(&self) -> (r: Self)
        ensures
            r == *self,
    {
        Command {  }
    }
}

impl ModeCommand for Command {
    /// The float closes itself on the next cursor movement, so starting is
    /// the single open action.
    open spec fn spec_start(&self) -> Seq<HostActionView> {
        seq![HostActionView::OpenCursorFloat]
    }

    /// Nothing to revert: the float is gone as soon as the cursor moves.
    open spec fn spec_stop(&self, config: &Config) -> Seq<HostActionView> {
        Seq::empty()
    }

    open spec fn spec_name(&self) -> Seq<char> {
        "Only cursor line"@
    }

    open spec fn spec_valid(&self, host: &HostView) -> bool {
        true
    }

    fn start(&self) -> (acts: Vec<HostAction>) {
        let mut acts: Vec<HostAction> = Vec::new();
        acts.push(HostAction::OpenCursorFloat);
        proof {
            assert(acts.deep_view() =~= self.spec_start());
        }
        acts
    }

    fn stop(&self, config: &Config) -> (acts: Vec<HostAction>) {
        let acts: Vec<HostAction> = Vec::new();
        proof {
            assert(acts.deep_view() =~= self.spec_stop(config));
        }
        acts
    }

    fn name(&self) -> (r: String) {
        String::from_str("Only cursor line")
    }

    fn is_valid(&self, host: &HostView) -> (r: bool) {
        true
    }
}

} // verus!
