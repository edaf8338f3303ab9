//! Mode capability scenarios: actions, names, validation, dispatch.

use nvim_chaos::chat::parse_command;
use nvim_chaos::chat::Command;
use nvim_chaos::chat::Dispatch;
use nvim_chaos::commands::Background;
use nvim_chaos::commands::ColorSchemeCommand;
use nvim_chaos::commands::Mode;
use nvim_chaos::commands::ModeCommand;
use nvim_chaos::commands::ModeType;
use nvim_chaos::commands::VimMotionsHellCommand;
use nvim_chaos::commands::cursor_line;
use nvim_chaos::config::Config;
use nvim_chaos::host::HostAction;
use nvim_chaos::host::HostView;

fn host_with(schemes: &[&str]) -> HostView {
    HostView {
        columns: 80,
        overlay_valid: false,
        color_schemes: schemes.iter().map(|s| s.to_string()).collect(),
    }
}

#[test]
fn colorscheme_start_actions() {
    let cmd = ColorSchemeCommand {
        colorscheme: "gruvbox".to_string(),
        background: Background::Dark,
    };
    assert_eq!(
        cmd.start(),
        vec![
            HostAction::RunCommand("colorscheme gruvbox".to_string()),
            HostAction::RelinkFloatHighlight,
            HostAction::RunCommand("set background=dark".to_string()),
        ]
    );
}

#[test]
fn colorscheme_start_skips_absent_background() {
    let cmd = ColorSchemeCommand {
        colorscheme: "gruvbox".to_string(),
        background: Background::Default,
    };
    assert_eq!(
        cmd.start(),
        vec![
            HostAction::RunCommand("colorscheme gruvbox".to_string()),
            HostAction::RelinkFloatHighlight,
        ]
    );
}

#[test]
fn colorscheme_stop_restores_configured_baseline() {
    let cmd = ColorSchemeCommand {
        colorscheme: "gruvbox".to_string(),
        background: Background::Light,
    };
    let config = Config::default();
    assert_eq!(
        cmd.stop(&config),
        vec![
            HostAction::RunCommand("colorscheme retrobox".to_string()),
            HostAction::RunCommand("set background=dark".to_string()),
        ]
    );
}

#[test]
fn colorscheme_validates_against_host_candidates() {
    let cmd = ColorSchemeCommand {
        colorscheme: "gruvbox".to_string(),
        background: Background::Default,
    };
    assert!(cmd.is_valid(&host_with(&["default", "gruvbox"])));
    assert!(!cmd.is_valid(&host_with(&["default", "zaibatsu"])));
    assert!(!cmd.is_valid(&host_with(&[])));
}

#[test]
fn mode_names_label_the_overlay() {
    let scheme = Mode::ColorSchemeCommand(ColorSchemeCommand {
        colorscheme: "gruvbox".to_string(),
        background: Background::Default,
    });
    assert_eq!(scheme.name(), "Color Scheme - gruvbox");
    let hell = Mode::VimMotionsHellCommand(VimMotionsHellCommand {});
    assert_eq!(hell.name(), "Vim Motions Hell");
    assert_eq!(cursor_line::Command {}.name(), "Only cursor line");
}

#[test]
fn hell_start_and_stop_mirror_the_movement_keys() {
    let hell = VimMotionsHellCommand {};
    let start = hell.start();
    assert_eq!(start.len(), 8);
    assert_eq!(start[0], HostAction::RunCommand("noremap l h".to_string()));
    assert_eq!(start[7], HostAction::RunCommand("noremap ge e".to_string()));
    let stop = hell.stop(&Config::default());
    assert_eq!(stop[0], HostAction::RunCommand("noremap l l".to_string()));
    assert_eq!(stop.len(), 8);
    assert!(hell.is_valid(&host_with(&[])));
}

#[test]
fn background_parse_recognizes_hints() {
    assert_eq!(Background::parse("dark"), Background::Dark);
    assert_eq!(Background::parse("light"), Background::Light);
    assert_eq!(Background::parse(""), Background::Default);
    assert_eq!(Background::parse("mauve"), Background::Default);
    assert_eq!(Background::default(), Background::Default);
    assert_eq!(Background::Dark.as_str(), "dark");
    assert_eq!(Background::Light.as_str(), "light");
    assert_eq!(Background::Default.as_str(), "");
}

#[test]
fn dispatch_draws_durations_from_config() {
    let config = Config::default();
    match parse_command(
        Command::ColorScheme("gruvbox".to_string(), "dark".to_string()),
        &config,
    ) {
        Dispatch::Apply(mode, kind, duration) => {
            assert_eq!(
                mode,
                Mode::ColorSchemeCommand(ColorSchemeCommand {
                    colorscheme: "gruvbox".to_string(),
                    background: Background::Dark,
                })
            );
            assert_eq!(kind, ModeType::ColorSchemeType);
            assert_eq!(duration, 300);
        }
        _ => panic!("expected a mode application"),
    }
    match parse_command(Command::VimMotionsHell, &config) {
        Dispatch::Apply(mode, kind, duration) => {
            assert_eq!(mode, Mode::VimMotionsHellCommand(VimMotionsHellCommand {}));
            assert_eq!(kind, ModeType::VimMotionsHellType);
            assert_eq!(duration, 60);
        }
        _ => panic!("expected a mode application"),
    }
}

#[test]
fn dispatch_routes_messages_to_display() {
    let config = Config::default();
    match parse_command(
        Command::Message("viewer".to_string(), "hi there".to_string()),
        &config,
    ) {
        Dispatch::ShowMessage(author, text) => {
            assert_eq!(author, "viewer");
            assert_eq!(text, "hi there");
        }
        _ => panic!("expected a message display"),
    }
}
