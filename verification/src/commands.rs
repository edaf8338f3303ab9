//! The mode capability: a closed set of reversible host overrides, each with
//! validate/start/stop/describe operations, dispatched over a tagged union.

use vstd::prelude::*;

pub mod color_scheme;
pub mod cursor_line;
pub mod vim_motions_hell;

pub use color_scheme::Background;
pub use color_scheme::Command as ColorSchemeCommand;
pub use vim_motions_hell::VimMotionsHellCommand;

use crate::config::Config;
use crate::host::HostAction;
use crate::host::HostActionView;
use crate::host::HostView;

verus! {

/// A reversible, timed override of host behavior. Starting and stopping are
/// described as host-action values; the glue performs them.
pub trait ModeCommand {
    /// The actions that apply the override.
    spec fn spec_start(&self) -> Seq<HostActionView>;

    /// The actions that revert to the configured baseline.
    spec fn spec_stop(&self, config: &Config) -> Seq<HostActionView>;

    /// The human-readable label shown in the overlay.
    spec fn spec_name(&self) -> Seq<char>;

    /// Whether the override's target exists on the host.
    spec fn spec_valid(&self, host: &HostView) -> bool;

    fn start(&self) -> (acts: Vec<HostAction>)
        ensures
            acts.deep_view() == self.spec_start(),
    ;

    fn stop(&self, config: &Config) -> (acts: Vec<HostAction>)
        ensures
            acts.deep_view() == self.spec_stop(config),
    ;

    fn name(&self) -> (r: String)
        ensures
            r@ == self.spec_name(),
    ;

    fn is_valid(&self, host: &HostView) -> (r: bool)
        ensures
            r == self.spec_valid(host),
    ;
}

/// The closed set of mode variants.
#[derive(Debug, PartialEq)]
pub enum Mode {
    VimMotionsHellCommand(VimMotionsHellCommand),
    ColorSchemeCommand(ColorSchemeCommand),
}

impl Clone for Mode {
    fn clone(&self) -> (r: Self)
        ensures
            r == *self,
    {
        match self {
            Mode::VimMotionsHellCommand(c) => Mode::VimMotionsHellCommand(c.clone()),
            Mode::ColorSchemeCommand(c) => Mode::ColorSchemeCommand(c.clone()),
        }
    }
}

impl ModeCommand for Mode {
    open spec fn spec_start(&self) -> Seq<HostActionView> {
        match self {
            Mode::VimMotionsHellCommand(c) => c.spec_start(),
            Mode::ColorSchemeCommand(c) => c.spec_start(),
        }
    }

    open spec fn spec_stop(&self, config: &Config) -> Seq<HostActionView> {
        match self {
            Mode::VimMotionsHellCommand(c) => c.spec_stop(config),
            Mode::ColorSchemeCommand(c) => c.spec_stop(config),
        }
    }

    open spec fn spec_name(&self) -> Seq<char> {
        match self {
            Mode::VimMotionsHellCommand(c) => c.spec_name(),
            Mode::ColorSchemeCommand(c) => c.spec_name(),
        }
    }

    open spec fn spec_valid(&self, host: &HostView) -> bool {
        match self {
            Mode::VimMotionsHellCommand(c) => c.spec_valid(host),
            Mode::ColorSchemeCommand(c) => c.spec_valid(host),
        }
    }

    fn start(&self) -> (acts: Vec<HostAction>) {
        match self {
            Mode::VimMotionsHellCommand(c) => c.start(),
            Mode::ColorSchemeCommand(c) => c.start(),
        }
    }

    fn stop(&self, config: &Config) -> (acts: Vec<HostAction>) {
        match self {
            Mode::VimMotionsHellCommand(c) => c.stop(config),
            Mode::ColorSchemeCommand(c) => c.stop(config),
        }
    }

    fn name(&self) -> (r: String) {
        match self {
            Mode::VimMotionsHellCommand(c) => c.name(),
            Mode::ColorSchemeCommand(c) => c.name(),
        }
    }

    fn is_valid(&self, host: &HostView) -> (r: bool) {
        match self {
            Mode::VimMotionsHellCommand(c) => c.is_valid(host),
            Mode::ColorSchemeCommand(c) => c.is_valid(host),
        }
    }
}

/// The replacement-identity tag: at most one active mode per kind.
#[derive(Clone, Copy, Debug, PartialEq, Eq, Structural)]
pub enum ModeType {
    VimMotionsHellType,
    ColorSchemeType,
}

} // verus!
