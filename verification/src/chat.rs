//! The chat command protocol: one recognized command per line, matched as
//! `<exact-command-token>[ <args...>]` against the configured names, and the
//! dispatch of a recognized command to the consumer's next step.

use vstd::prelude::*;
use vstd::string::StrSliceExecFns;

use crate::commands::color_scheme::spec_background;
use crate::commands::Background;
use crate::commands::ColorSchemeCommand;
use crate::commands::Mode;
use crate::commands::ModeType;
use crate::commands::VimMotionsHellCommand;
use crate::config::Commmands;
use crate::config::Config;
use crate::text::rest_spec;
use crate::text::split_first;
use crate::text::str_eq;
use crate::text::token_spec;
use crate::text::trim;
use crate::text::trim_spec;

verus! {

/// A recognized chat command.
#[derive(Debug, PartialEq)]
pub enum Command {
    /// A message to display: the author and the free text after the token.
    Message(String, String),
    /// A color-scheme request: the scheme name and a background hint, empty
    /// when absent.
    ColorScheme(String, String),
    /// The motion-remap request; takes no arguments.
    VimMotionsHell,
}

/// The mathematical value of a `Command`.
pub enum CommandView {
    Message(Seq<char>, Seq<char>),
    ColorScheme(Seq<char>, Seq<char>),
    VimMotionsHell,
}

impl View for Command {
    type V = CommandView;

    open spec fn view(&self) -> CommandView {
        match self {
            Command::Message(a, t) => CommandView::Message(a@, t@),
            Command::ColorScheme(s, b) => CommandView::ColorScheme(s@, b@),
            Command::VimMotionsHell => CommandView::VimMotionsHell,
        }
    }
}

/// One payload moved across the bridge per recognized line.
#[derive(Debug, PartialEq)]
pub struct CommandPayload {
    pub command: Command,
}

/// What one chat line means: the line is trimmed and split at the first
/// whitespace run into a token and the rest; the first configured name the
/// token equals wins. The message and scheme commands need an argument; the
/// no-argument command matches on the token alone.
pub open spec fn spec_parse(
    author: Seq<char>,
    line: Seq<char>,
    msg_name: Seq<char>,
    cs_name: Seq<char>,
    hell_name: Seq<char>,
) -> Option<CommandView> {
    let t = trim_spec(line);
    let tok = token_spec(t);
    let rest = rest_spec(t);
    if tok == msg_name && rest.len() > 0 {
        Some(CommandView::Message(author, rest))
    } else if tok == cs_name && rest.len() > 0 {
        Some(CommandView::ColorScheme(token_spec(rest), rest_spec(rest)))
    } else if tok == hell_name {
        Some(CommandView::VimMotionsHell)
    } else {
        None
    }
}

/// Turns one raw chat line into at most one recognized command; an
/// unrecognized line is silently dropped.
pub fn parse_line(author: &str, line: &str, commands: &Commmands) -> (r: Option<Command>)
    ensures
        match spec_parse(
            author@,
            line@,
            commands.message@,
            commands.colorscheme.name@,
            commands.hell.name@,
        ) {
            Some(c) => r matches Some(cmd) && cmd@ == c,
            None => r is None,
        },
{
    let t = trim(line);
    let (tok, rest) = split_first(t);
    if str_eq(tok, commands.message.as_str()) && rest.unicode_len() > 0 {
        Some(Command::Message(author.to_owned(), rest.to_owned()))
    } else if str_eq(tok, commands.colorscheme.name.as_str()) && rest.unicode_len() > 0 {
        let (scheme, hint) = split_first(rest);
        Some(Command::ColorScheme(scheme.to_owned(), hint.to_owned()))
    } else if str_eq(tok, commands.hell.name.as_str()) {
        Some(Command::VimMotionsHell)
    } else {
        None
    }
}

/// The consumer's next step for one recognized command.
pub enum Dispatch {
    /// Show the message: author and wrapped text are displayed by the glue.
    ShowMessage(String, String),
    /// Hand the mode to the engine with the configured duration.
    Apply(Mode, ModeType, u32),
}

/// Maps a recognized command to the consumer's next step, drawing each
/// mode's duration from the configuration.
pub fn parse_command(command: Command, config: &Config) -> (d: Dispatch)
    ensures
        ({
            match command {
                Command::Message(a, t) => d matches Dispatch::ShowMessage(a2, t2) && a2 == a && t2
                    == t,
                Command::ColorScheme(scheme, hint) => d matches Dispatch::Apply(m, kt, dur) && m
                    == Mode::ColorSchemeCommand(
                    ColorSchemeCommand { colorscheme: scheme, background: spec_background(hint@) },
                ) && kt == ModeType::ColorSchemeType && dur == config.commands.colorscheme.duration,
                Command::VimMotionsHell => d matches Dispatch::Apply(m, kt, dur) && m
                    == Mode::VimMotionsHellCommand(VimMotionsHellCommand {  }) && kt
                    == ModeType::VimMotionsHellType && dur == config.commands.hell.duration,
            }
        }),
{
    match command {
        Command::Message(author, text) => Dispatch::ShowMessage(author, text),
        Command::ColorScheme(colorscheme, background) => {
            let background = Background::parse(background.as_str());
            Dispatch::Apply(
                Mode::ColorSchemeCommand(ColorSchemeCommand { colorscheme, background }),
                ModeType::ColorSchemeType,
                config.commands.colorscheme.duration,
            )
        },
        Command::VimMotionsHell => Dispatch::Apply(
            Mode::VimMotionsHellCommand(VimMotionsHellCommand {  }),
            ModeType::VimMotionsHellType,
            config.commands.hell.duration,
        ),
    }
}

} // verus!
