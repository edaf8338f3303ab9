//! Immutable configuration snapshot: per-command names and durations.
//!
//! Loaded once at startup by the surrounding glue and passed by value into
//! every component that needs it; no part of the core mutates it.

use vstd::prelude::*;
use vstd::string::StringExecFns;

verus! {

/// Settings of the color-scheme override command.
pub struct ColorSchemeCommand {
    /// Chat token that triggers the command.
    pub name: String,
    /// How long the override stays active, in seconds.
    pub duration: u32,
    /// Scheme restored when the override expires.
    pub default: String,
    /// Background restored when the override expires.
    pub background: String,
}

/// Settings of the cursor-line override command.
pub struct CursorLineCommand {
    /// Chat token that triggers the command.
    pub name: String,
    /// How long the override stays active, in seconds.
    pub duration: u32,
}

/// Settings of the motion-remap override command.
pub struct VimMotionsHellCommand {
    /// Chat token that triggers the command.
    pub name: String,
    /// How long the override stays active, in seconds.
    pub duration: u32,
}

/// The full command-name table.
pub struct Commmands {
    /// Chat token of the message command.
    pub message: String,
    pub colorscheme: ColorSchemeCommand,
    pub hell: VimMotionsHellCommand,
    pub cursorline: CursorLineCommand,
}

/// Immutable snapshot of the whole configuration.
pub struct Config {
    /// Chat channel to join; `None` disables the listener.
    pub channel: Option<String>,
    pub commands: Commmands,
}

impl Clone for ColorSchemeCommand {
    fn clone(&self) -> (r: Self)
        ensures
            r == *self,
    {
        ColorSchemeCommand {
            name: self.name.clone(),
            duration: self.duration,
            default: self.default.clone(),
            background: self.background.clone(),
        }
    }
}

impl Clone for CursorLineCommand {
    fn clone(&self) -> (r: Self)
        ensures
            r == *self,
    {
        CursorLineCommand { name: self.name.clone(), duration: self.duration }
    }
}

impl Clone for VimMotionsHellCommand {
    fn clone(&self) -> (r: Self)
        ensures
            r == *self,
    {
        VimMotionsHellCommand { name: self.name.clone(), duration: self.duration }
    }
}

impl Clone for Commmands {
    fn clone(&self) -> (r: Self)
        ensures
            r == *self,
    {
        Commmands {
            message: self.message.clone(),
            colorscheme: self.colorscheme.clone(),
            hell: self.hell.clone(),
            cursorline: self.cursorline.clone(),
        }
    }
}

impl Clone for Config {
    fn clone(&self) -> (r: Self)
        ensures
            r == *self,
    {
        let channel = match &self.channel {
            Some(c) => Some(c.clone()),
            None => None,
        };
        Config { channel, commands: self.commands.clone() }
    }
}

pub fn default_colorscheme_command_name() -> (r: String)
    ensures
        r@ == "!colorscheme"@,
{
    String::from_str("!colorscheme")
}

pub fn default_colorscheme_command_duration() -> (r: u32)
    ensures
        r == 300,
{
    300
}

pub fn default_background() -> (r: String)
    ensures
        r@ == "dark"@,
{
    String::from_str("dark")
}

pub fn default_cursorline_command_name() -> (r: String)
    ensures
        r@ == "!cursorline"@,
{
    String::from_str("!cursorline")
}

pub fn default_cursorline_command_duration() -> (r: u32)
    ensures
        r == 60,
{
    60
}

pub fn default_vimhell_command_name() -> (r: String)
    ensures
        r@ == "!vimhell"@,
{
    String::from_str("!vimhell")
}

pub fn default_vimhell_command_duration() -> (r: u32)
    ensures
        r == 60,
{
    60
}

pub fn default_message_command_name() -> (r: String)
    ensures
        r@ == "!msg"@,
{
    String::from_str("!msg")
}

/// Scheme restored when no other default is configured. The live default is
/// the host's current scheme, queried by the glue at load time.
pub fn fallback_colorscheme_name() -> (r: String)
    ensures
        r@ == "retrobox"@,
{
    String::from_str("retrobox")
}

impl Default for ColorSchemeCommand {
    fn default() -> (r: Self)
        ensures
            r.name@ == "!colorscheme"@,
            r.duration == 300,
            r.default@ == "retrobox"@,
            r.background@ == "dark"@,
    {
        ColorSchemeCommand {
            name: default_colorscheme_command_name(),
            duration: default_colorscheme_command_duration(),
            default: fallback_colorscheme_name(),
            background: default_background(),
        }
    }
}

impl Default for CursorLineCommand {
    fn default() -> (r: Self)
        ensures
            r.name@ == "!cursorline"@,
            r.duration == 60,
    {
        CursorLineCommand {
            name: default_cursorline_command_name(),
            duration: default_cursorline_command_duration(),
        }
    }
}

impl Default for VimMotionsHellCommand {
    fn default() -> (r: Self)
        ensures
            r.name@ == "!vimhell"@,
            r.duration == 60,
    {
        VimMotionsHellCommand {
            name: default_vimhell_command_name(),
            duration: default_vimhell_command_duration(),
        }
    }
}

impl Default for Commmands {
    fn default() -> (r: Self)
        ensures
            r.message@ == "!msg"@,
            r.colorscheme.name@ == "!colorscheme"@,
            r.colorscheme.duration == 300,
            r.colorscheme.default@ == "retrobox"@,
            r.colorscheme.background@ == "dark"@,
            r.hell.name@ == "!vimhell"@,
            r.hell.duration == 60,
            r.cursorline.name@ == "!cursorline"@,
            r.cursorline.duration == 60,
    {
        Commmands {
            message: default_message_command_name(),
            colorscheme: ColorSchemeCommand::default(),
            hell: VimMotionsHellCommand::default(),
            cursorline: CursorLineCommand::default(),
        }
    }
}

impl Default for Config {
    fn default() -> (r: Self)
        ensures
            r.channel is None,
            r.commands.message@ == "!msg"@,
            r.commands.colorscheme.name@ == "!colorscheme"@,
            r.commands.colorscheme.duration == 300,
            r.commands.colorscheme.default@ == "retrobox"@,
            r.commands.colorscheme.background@ == "dark"@,
            r.commands.hell.name@ == "!vimhell"@,
            r.commands.hell.duration == 60,
            r.commands.cursorline.name@ == "!cursorline"@,
            r.commands.cursorline.duration == 60,
    {
        Config { channel: None, commands: Commmands::default() }
    }
}

} // verus!
