//! Word-wrap scenarios and configuration defaults.

use nvim_chaos::config::default_background;
use nvim_chaos::config::default_colorscheme_command_duration;
use nvim_chaos::config::default_colorscheme_command_name;
use nvim_chaos::config::default_cursorline_command_duration;
use nvim_chaos::config::default_cursorline_command_name;
use nvim_chaos::config::default_message_command_name;
use nvim_chaos::config::default_vimhell_command_duration;
use nvim_chaos::config::default_vimhell_command_name;
use nvim_chaos::config::Config;
use nvim_chaos::text::wrap_text;

#[test]
fn wrap_keeps_short_lines() {
    assert_eq!(wrap_text("hello world", 40), "hello world");
}

#[test]
fn wrap_breaks_before_the_word_that_overflows() {
    assert_eq!(wrap_text("aaaa bbbb cccc", 9), "aaaa bbbb\ncccc");
}

#[test]
fn wrap_joins_whitespace_runs_with_single_spaces() {
    assert_eq!(wrap_text("a  b\t c", 10), "a b c");
}

#[test]
fn wrap_puts_an_overlong_word_on_its_own_line() {
    assert_eq!(wrap_text("abcdefghijkl", 5), "\nabcdefghijkl");
    assert_eq!(wrap_text("hi abcdefghijkl yo", 5), "hi\nabcdefghijkl\nyo");
}

#[test]
fn wrap_of_empty_input_is_empty() {
    assert_eq!(wrap_text("", 10), "");
    assert_eq!(wrap_text("   ", 10), "");
}

#[test]
fn wrap_counts_the_joining_space() {
    // "ab cd" is exactly five characters: it fits
    assert_eq!(wrap_text("ab cd", 5), "ab cd");
    // "ab cde" would be six: the second word moves down
    assert_eq!(wrap_text("ab cde", 5), "ab\ncde");
}

#[test]
fn config_defaults_match_the_documented_values() {
    assert_eq!(default_message_command_name(), "!msg");
    assert_eq!(default_colorscheme_command_name(), "!colorscheme");
    assert_eq!(default_colorscheme_command_duration(), 300);
    assert_eq!(default_background(), "dark");
    assert_eq!(default_vimhell_command_name(), "!vimhell");
    assert_eq!(default_vimhell_command_duration(), 60);
    assert_eq!(default_cursorline_command_name(), "!cursorline");
    assert_eq!(default_cursorline_command_duration(), 60);
}

#[test]
fn config_default_is_fully_populated() {
    let config = Config::default();
    assert!(config.channel.is_none());
    assert_eq!(config.commands.message, "!msg");
    assert_eq!(config.commands.colorscheme.name, "!colorscheme");
    assert_eq!(config.commands.colorscheme.duration, 300);
    assert_eq!(config.commands.colorscheme.default, "retrobox");
    assert_eq!(config.commands.colorscheme.background, "dark");
    assert_eq!(config.commands.hell.name, "!vimhell");
    assert_eq!(config.commands.hell.duration, 60);
    assert_eq!(config.commands.cursorline.name, "!cursorline");
    assert_eq!(config.commands.cursorline.duration, 60);
}
