//! Mode-engine scenarios: uniqueness, countdown, replacement, rejection,
//! zero duration.

use nvim_chaos::commands::ColorSchemeCommand;
use nvim_chaos::commands::Background;
use nvim_chaos::commands::Mode;
use nvim_chaos::commands::ModeType;
use nvim_chaos::commands::VimMotionsHellCommand;
use nvim_chaos::engine::EngineState;
use nvim_chaos::engine::ModeEvent;
use nvim_chaos::host::HostView;
use nvim_chaos::overlay::WinOp;

fn host() -> HostView {
    HostView {
        columns: 120,
        overlay_valid: true,
        color_schemes: vec!["gruvbox".to_string(), "zaibatsu".to_string()],
    }
}

fn scheme_mode(name: &str) -> Mode {
    Mode::ColorSchemeCommand(ColorSchemeCommand {
        colorscheme: name.to_string(),
        background: Background::Default,
    })
}

fn hell_mode() -> Mode {
    Mode::VimMotionsHellCommand(VimMotionsHellCommand {})
}

#[test]
fn engine_starts_empty() {
    let engine = EngineState::default();
    assert_eq!(engine.entries().len(), 0);
    assert!(!engine.overlay_is_open());
}

#[test]
fn set_mode_appends_entry_and_starts_it() {
    let mut engine = EngineState::default();
    let (events, op) = engine.set_mode(hell_mode(), ModeType::VimMotionsHellType, 60, &host());
    assert_eq!(events, vec![ModeEvent::Started(hell_mode())]);
    assert_eq!(engine.entries().len(), 1);
    assert_eq!(engine.entries()[0].seconds, 60);
    assert_eq!(engine.entries()[0].mode_type, ModeType::VimMotionsHellType);
    assert!(matches!(op, WinOp::Open(_)));
    assert!(engine.overlay_is_open());
}

#[test]
fn uniqueness_one_entry_per_kind() {
    let mut engine = EngineState::default();
    let h = host();
    engine.set_mode(scheme_mode("gruvbox"), ModeType::ColorSchemeType, 10, &h);
    engine.set_mode(scheme_mode("zaibatsu"), ModeType::ColorSchemeType, 20, &h);
    engine.set_mode(hell_mode(), ModeType::VimMotionsHellType, 30, &h);
    engine.set_mode(hell_mode(), ModeType::VimMotionsHellType, 40, &h);
    assert_eq!(engine.entries().len(), 2);
    let kinds: Vec<ModeType> = engine.entries().iter().map(|e| e.mode_type).collect();
    assert_eq!(kinds, vec![ModeType::ColorSchemeType, ModeType::VimMotionsHellType]);
}

#[test]
fn countdown_decrements_by_one_per_tick() {
    let mut engine = EngineState::default();
    let h = host();
    engine.set_mode(hell_mode(), ModeType::VimMotionsHellType, 3, &h);
    for expected in [2u32, 1, 0] {
        let (events, op) = engine.tick(&h);
        assert_eq!(events, vec![]);
        assert_eq!(engine.entries()[0].seconds, expected);
        // the panel is open and valid, so each re-render reuses it
        assert!(matches!(op, WinOp::Move(_)));
    }
    // the tick after the countdown reaches zero stops and removes the entry
    let (events, op) = engine.tick(&h);
    assert_eq!(events, vec![ModeEvent::Stopped(hell_mode())]);
    assert_eq!(engine.entries().len(), 0);
    assert!(matches!(op, WinOp::Close));
    assert!(!engine.overlay_is_open());
    // and stop is never reported again
    let (events, op) = engine.tick(&h);
    assert_eq!(events, vec![]);
    assert!(matches!(op, WinOp::Keep));
}

#[test]
fn replacement_stops_old_starts_new() {
    let mut engine = EngineState::default();
    let h = host();
    let (first, _) = engine.set_mode(scheme_mode("gruvbox"), ModeType::ColorSchemeType, 10, &h);
    assert_eq!(first, vec![ModeEvent::Started(scheme_mode("gruvbox"))]);
    let (second, _) = engine.set_mode(scheme_mode("zaibatsu"), ModeType::ColorSchemeType, 5, &h);
    assert_eq!(
        second,
        vec![
            ModeEvent::Stopped(scheme_mode("gruvbox")),
            ModeEvent::Started(scheme_mode("zaibatsu")),
        ]
    );
    assert_eq!(engine.entries().len(), 1);
    assert_eq!(engine.entries()[0].seconds, 5);
    assert_eq!(engine.entries()[0].mode_type, ModeType::ColorSchemeType);
    assert_eq!(engine.entries()[0].mode, scheme_mode("zaibatsu"));
}

#[test]
fn invalid_mode_is_silently_rejected() {
    let mut engine = EngineState::default();
    let h = host();
    let (events, op) = engine.set_mode(scheme_mode("no-such-scheme"), ModeType::ColorSchemeType, 10, &h);
    assert_eq!(events, vec![]);
    assert!(matches!(op, WinOp::Keep));
    assert_eq!(engine.entries().len(), 0);
    assert!(!engine.overlay_is_open());
}

#[test]
fn zero_duration_lives_for_one_render_cycle() {
    let mut engine = EngineState::default();
    let h = host();
    let (events, op) = engine.set_mode(hell_mode(), ModeType::VimMotionsHellType, 0, &h);
    assert_eq!(events, vec![ModeEvent::Started(hell_mode())]);
    assert_eq!(engine.entries().len(), 1);
    match op {
        WinOp::Open(plan) => {
            assert_eq!(plan.lines.len(), 3);
            assert_eq!(plan.lines[1], "  00:00  Vim Motions Hell  ");
        }
        other => panic!("expected an open, got a {}", winop_name(&other)),
    }
    let (events, op) = engine.tick(&h);
    assert_eq!(events, vec![ModeEvent::Stopped(hell_mode())]);
    assert_eq!(engine.entries().len(), 0);
    assert!(matches!(op, WinOp::Close));
}

#[test]
fn close_stops_every_entry_in_order() {
    let mut engine = EngineState::default();
    let h = host();
    engine.set_mode(scheme_mode("gruvbox"), ModeType::ColorSchemeType, 10, &h);
    engine.set_mode(hell_mode(), ModeType::VimMotionsHellType, 20, &h);
    let (events, op) = engine.close();
    assert_eq!(
        events,
        vec![
            ModeEvent::Stopped(scheme_mode("gruvbox")),
            ModeEvent::Stopped(hell_mode()),
        ]
    );
    assert_eq!(engine.entries().len(), 0);
    assert!(matches!(op, WinOp::Close));
    assert!(!engine.overlay_is_open());
}

#[test]
fn late_entry_is_not_retroactively_expired() {
    // an entry added with zero seconds survives the tick that removes an
    // older expired entry only if it was added after that tick ran; within
    // one tick, removal and decrement come from one snapshot
    let mut engine = EngineState::default();
    let h = host();
    engine.set_mode(scheme_mode("gruvbox"), ModeType::ColorSchemeType, 1, &h);
    engine.tick(&h); // 0 seconds left, still present
    engine.set_mode(hell_mode(), ModeType::VimMotionsHellType, 0, &h);
    let (events, _) = engine.tick(&h);
    // both entries expire on this tick, in display order
    assert_eq!(
        events,
        vec![
            ModeEvent::Stopped(scheme_mode("gruvbox")),
            ModeEvent::Stopped(hell_mode()),
        ]
    );
    assert_eq!(engine.entries().len(), 0);
}

fn winop_name(op: &WinOp) -> &'static str {
    match op {
        WinOp::Open(_) => "open",
        WinOp::Move(_) => "move",
        WinOp::Close => "close",
        WinOp::Keep => "keep",
    }
}
