//! The color-scheme override: swaps the host's visual theme, optionally with
//! a background hint, and restores the configured baseline on stop.

use vstd::prelude::*;
use vstd::string::StrSliceExecFns;
use vstd::string::StringExecFns;

use super::ModeCommand;
use crate::config::Config;
use crate::host::HostAction;
use crate::host::HostActionView;
use crate::host::HostView;
use crate::text::str_eq;

verus! {

/// A background hint accompanying a scheme request.
#[derive(Clone, Copy, Debug, PartialEq, Eq, Structural)]
pub enum Background {
    Default,
    Dark,
    Light,
}

/// The background named by a hint string: anything but the two known names
/// means no hint.
pub open spec fn spec_background(s: Seq<char>) -> Background {
    if s == "dark"@ {
        Background::Dark
    } else if s == "light"@ {
        Background::Light
    } else {
        Background::Default
    }
}

impl Background {
    /// Reads a background hint from chat text.
    pub fn parse(s: &str) -> (r: Background)
        ensures
            r == spec_background(s@),
    {
        if str_eq(s, "dark") {
            Background::Dark
        } else if str_eq(s, "light") {
            Background::Light
        } else {
            Background::Default
        }
    }

    /// The hint as host option text; the empty string for no hint.
    pub open spec fn spec_str(&self) -> Seq<char> {
        match self {
            Background::Dark => "dark"@,
            Background::Light => "light"@,
            Background::Default => ""@,
        }
    }

    pub fn as_str(&self) -> (r: &'static str)
        ensures
            r@ == self.spec_str(),
    {
        match self {
            Background::Dark => "dark",
            Background::Light => "light",
            Background::Default => "",
        }
    }
}

impl Default for Background {
    fn default() -> (r: Self)
        ensures
            r == Background::Default,
    {
        Background::Default
    }
}

/// The color-scheme mode: which scheme to apply and an optional background.
#[derive(Debug, PartialEq)]
pub struct Command {
    pub colorscheme: String,
    pub background: Background,
}

impl Clone for Command {
    fn clone(&self) -> (r: Self)
        ensures
            r == *self,
    {
        Command { colorscheme: self.colorscheme.clone(), background: self.background }
    }
}

impl ModeCommand for Command {
    /// Apply the scheme, re-link the float highlight (some default schemes
    /// give floating panels an unreadable background), then set the hinted
    /// background if one was given.
    open spec fn spec_start(&self) -> Seq<HostActionView> {
        let base = seq![
            HostActionView::RunCommand("colorscheme "@ + self.colorscheme@),
            HostActionView::RelinkFloatHighlight,
        ];
        if self.background == Background::Default {
            base
        } else {
            base + seq![HostActionView::RunCommand("set background="@ + self.background.spec_str())]
        }
    }

    /// Restore the configured baseline scheme and background.
    open spec fn spec_stop(&self, config: &Config) -> Seq<HostActionView> {
        seq![
            HostActionView::RunCommand("colorscheme "@ + config.commands.colorscheme.default@),
            HostActionView::RunCommand("set background="@ + config.commands.colorscheme.background@),
        ]
    }

    open spec fn spec_name(&self) -> Seq<char> {
        "Color Scheme - "@ + self.colorscheme@
    }

    /// Valid exactly when the requested scheme is among the host's
    /// completion candidates.
    open spec fn spec_valid(&self, host: &HostView) -> bool {
        exists|k: int|
            0 <= k < host.color_schemes@.len() && host.color_schemes@[k]@ == self.colorscheme@
    }

    fn start(&self) -> (acts: Vec<HostAction>) {
        let mut acts: Vec<HostAction> = Vec::new();
        let cmd = String::from_str("colorscheme ").concat(self.colorscheme.as_str());
        acts.push(HostAction::RunCommand(cmd));
        acts.push(HostAction::RelinkFloatHighlight);
        if !(self.background == Background::Default) {
            let bg = String::from_str("set background=").concat(self.background.as_str());
            acts.push(HostAction::RunCommand(bg));
        }
        proof {
            assert(acts.deep_view() =~= self.spec_start());
        }
        acts
    }

    fn stop(&self, config: &Config) -> (acts: Vec<HostAction>) {
        let mut acts: Vec<HostAction> = Vec::new();
        let scheme = String::from_str("colorscheme ").concat(
            config.commands.colorscheme.default.as_str(),
        );
        acts.push(HostAction::RunCommand(scheme));
        let bg = String::from_str("set background=").concat(
            config.commands.colorscheme.background.as_str(),
        );
        acts.push(HostAction::RunCommand(bg));
        proof {
            assert(acts.deep_view() =~= self.spec_stop(config));
        }
        acts
    }

    fn name(&self) -> (r: String) {
        String::from_str("Color Scheme - ").concat(self.colorscheme.as_str())
    }

    fn is_valid(&self, host: &HostView) -> (r: bool) {
        let n = host.color_schemes.len();
        let mut k: usize = 0;
        while k < n
            invariant
                n == host.color_schemes@.len(),
                0 <= k <= n,
                forall|m: int| 0 <= m < k ==> host.color_schemes@[m]@ != self.colorscheme@,
            decreases n - k,
        {
            if str_eq(host.color_schemes[k].as_str(), self.colorscheme.as_str()) {
                return true;
            }
            k = k + 1;
        }
        false
    }
}

} // verus!
