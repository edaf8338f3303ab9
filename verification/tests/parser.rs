//! Chat-command parser scenarios.

use nvim_chaos::chat::parse_line;
use nvim_chaos::chat::Command;
use nvim_chaos::config::Commmands;

#[test]
fn parse_message_line() {
    let cmds = Commmands::default();
    match parse_line("viewer", "!msg hello world", &cmds) {
        Some(Command::Message(author, text)) => {
            assert_eq!(author, "viewer");
            assert_eq!(text, "hello world");
        }
        other => panic!("expected a message command, got {:?}", other),
    }
}

#[test]
fn parse_colorscheme_with_background() {
    let cmds = Commmands::default();
    match parse_line("viewer", "!colorscheme gruvbox dark", &cmds) {
        Some(Command::ColorScheme(scheme, background)) => {
            assert_eq!(scheme, "gruvbox");
            assert_eq!(background, "dark");
        }
        other => panic!("expected a scheme command, got {:?}", other),
    }
}

#[test]
fn parse_colorscheme_without_background() {
    let cmds = Commmands::default();
    match parse_line("viewer", "!colorscheme gruvbox", &cmds) {
        Some(Command::ColorScheme(scheme, background)) => {
            assert_eq!(scheme, "gruvbox");
            assert_eq!(background, "");
        }
        other => panic!("expected a scheme command, got {:?}", other),
    }
}

#[test]
fn parse_hell_line() {
    let cmds = Commmands::default();
    assert!(matches!(
        parse_line("viewer", "!vimhell", &cmds),
        Some(Command::VimMotionsHell)
    ));
}

#[test]
fn parse_unrecognized_line_is_dropped() {
    let cmds = Commmands::default();
    assert!(parse_line("viewer", "hello", &cmds).is_none());
}

#[test]
fn parse_trims_and_splits_on_whitespace_runs() {
    let cmds = Commmands::default();
    match parse_line("viewer", "  !msg   spaced  words  ", &cmds) {
        Some(Command::Message(_, text)) => assert_eq!(text, "spaced  words"),
        other => panic!("expected a message command, got {:?}", other),
    }
}

#[test]
fn parse_message_needs_an_argument() {
    let cmds = Commmands::default();
    assert!(parse_line("viewer", "!msg", &cmds).is_none());
    assert!(parse_line("viewer", "!colorscheme", &cmds).is_none());
}

#[test]
fn parse_hell_matches_on_token_alone() {
    let cmds = Commmands::default();
    assert!(matches!(
        parse_line("viewer", "  !vimhell  ", &cmds),
        Some(Command::VimMotionsHell)
    ));
}

#[test]
fn parse_requires_exact_token_match() {
    let cmds = Commmands::default();
    assert!(parse_line("viewer", "!msgx hello", &cmds).is_none());
    assert!(parse_line("viewer", "!colorschemes gruvbox", &cmds).is_none());
}
