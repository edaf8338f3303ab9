//! The motion-remap override: mirrors the basic movement keys, and restores
//! the standard mappings on stop.

use vstd::prelude::*;
use vstd::string::StringExecFns;

use super::ModeCommand;
use crate::config::Config;
use crate::host::HostAction;
use crate::host::HostActionView;
use crate::host::HostView;

verus! {

/// The motion-remap mode; carries no parameters.
#[derive(Debug, PartialEq)]
pub struct VimMotionsHellCommand {}

impl Clone for VimMotionsHellCommand {
    fn clone(&self) -> (r: Self)
        ensures
            r == *self,
    {
        VimMotionsHellCommand {  }
    }
}

impl ModeCommand for VimMotionsHellCommand {
    /// Swap each basic movement key with its opposite.
    open spec fn spec_start(&self) -> Seq<HostActionView> {
        seq![
            HostActionView::RunCommand("noremap l h"@),
            HostActionView::RunCommand("noremap k j"@),
            HostActionView::RunCommand("noremap j k"@),
            HostActionView::RunCommand("noremap h l"@),
            HostActionView::RunCommand("noremap w b"@),
            HostActionView::RunCommand("noremap b w"@),
            HostActionView::RunCommand("noremap e ge"@),
            HostActionView::RunCommand("noremap ge e"@),
        ]
    }

    /// Map every affected key back to itself.
    open spec fn spec_stop(&self, config: &Config) -> Seq<HostActionView> {
        seq![
            HostActionView::RunCommand("noremap l l"@),
            HostActionView::RunCommand("noremap k k"@),
            HostActionView::RunCommand("noremap j j"@),
            HostActionView::RunCommand("noremap h h"@),
            HostActionView::RunCommand("noremap w w"@),
            HostActionView::RunCommand("noremap b b"@),
            HostActionView::RunCommand("noremap e e"@),
            HostActionView::RunCommand("noremap ge ge"@),
        ]
    }

    open spec fn spec_name(&self) -> Seq<char> {
        "Vim Motions Hell"@
    }

    /// Key remapping needs nothing from the host to be applicable.
    open spec fn spec_valid(&self, host: &HostView) -> bool {
        true
    }

    fn start(&self) -> (acts: Vec<HostAction>) {
        let mut acts: Vec<HostAction> = Vec::new();
        acts.push(HostAction::RunCommand(String::from_str("noremap l h")));
        acts.push(HostAction::RunCommand(String::from_str("noremap k j")));
        acts.push(HostAction::RunCommand(String::from_str("noremap j k")));
        acts.push(HostAction::RunCommand(String::from_str("noremap h l")));
        acts.push(HostAction::RunCommand(String::from_str("noremap w b")));
        acts.push(HostAction::RunCommand(String::from_str("noremap b w")));
        acts.push(HostAction::RunCommand(String::from_str("noremap e ge")));
        acts.push(HostAction::RunCommand(String::from_str("noremap ge e")));
        proof {
            assert(acts.deep_view() =~= self.spec_start());
        }
        acts
    }

    fn stop(&self, config: &Config) -> (acts: Vec<HostAction>) {
        let mut acts: Vec<HostAction> = Vec::new();
        acts.push(HostAction::RunCommand(String::from_str("noremap l l")));
        acts.push(HostAction::RunCommand(String::from_str("noremap k k")));
        acts.push(HostAction::RunCommand(String::from_str("noremap j j")));
        acts.push(HostAction::RunCommand(String::from_str("noremap h h")));
        acts.push(HostAction::RunCommand(String::from_str("noremap w w")));
        acts.push(HostAction::RunCommand(String::from_str("noremap b b")));
        acts.push(HostAction::RunCommand(String::from_str("noremap e e")));
        acts.push(HostAction::RunCommand(String::from_str("noremap ge ge")));
        proof {
            assert(acts.deep_view() =~= self.spec_stop(config));
        }
        acts
    }

    fn name(&self) -> (r: String) {
        String::from_str("Vim Motions Hell")
    }

    fn is_valid(&self, host: &HostView) -> (r: bool) {
        true
    }
}

} // verus!
