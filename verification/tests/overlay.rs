//! Overlay render scenarios: geometry, time formatting, idempotent render.

use nvim_chaos::commands::Background;
use nvim_chaos::commands::ColorSchemeCommand;
use nvim_chaos::commands::Mode;
use nvim_chaos::commands::ModeType;
use nvim_chaos::commands::VimMotionsHellCommand;
use nvim_chaos::engine::ModeState;
use nvim_chaos::overlay::Overlay;
use nvim_chaos::overlay::RenderPlan;
use nvim_chaos::overlay::WinOp;

fn scheme_entry(name: &str, seconds: u32) -> ModeState {
    ModeState {
        mode: Mode::ColorSchemeCommand(ColorSchemeCommand {
            colorscheme: name.to_string(),
            background: Background::Default,
        }),
        mode_type: ModeType::ColorSchemeType,
        seconds,
    }
}

fn hell_entry(seconds: u32) -> ModeState {
    ModeState {
        mode: Mode::VimMotionsHellCommand(VimMotionsHellCommand {}),
        mode_type: ModeType::VimMotionsHellType,
        seconds,
    }
}

fn plan_of(op: WinOp) -> RenderPlan {
    match op {
        WinOp::Open(plan) => plan,
        WinOp::Move(plan) => plan,
        _ => panic!("expected a render operation"),
    }
}

#[test]
fn render_formats_minutes_and_seconds() {
    let mut overlay = Overlay { open: false };
    let entries = vec![
        scheme_entry("gruvbox", 300),
        hell_entry(59),
        scheme_entry("x", 3600),
    ];
    let plan = plan_of(overlay.refresh(&entries, 120, true));
    assert_eq!(
        plan.lines,
        vec![
            "".to_string(),
            "  05:00  Color Scheme - gruvbox  ".to_string(),
            "  00:59  Vim Motions Hell  ".to_string(),
            "  60:00  Color Scheme - x  ".to_string(),
            "".to_string(),
        ]
    );
}

#[test]
fn render_minutes_wider_than_two_digits_keep_all_digits() {
    let mut overlay = Overlay { open: false };
    let entries = vec![hell_entry(6000)];
    let plan = plan_of(overlay.refresh(&entries, 120, true));
    assert_eq!(plan.lines[1], "  100:00  Vim Motions Hell  ");
}

#[test]
fn render_geometry_anchors_to_the_right_edge() {
    let mut overlay = Overlay { open: false };
    let entries = vec![scheme_entry("gruvbox", 300)];
    let plan = plan_of(overlay.refresh(&entries, 120, true));
    let line_len = "  05:00  Color Scheme - gruvbox  ".chars().count();
    assert_eq!(plan.width, line_len);
    assert_eq!(plan.height, 3);
    assert_eq!(plan.row, 1);
    assert_eq!(plan.col, 120 - 4 - line_len);
}

#[test]
fn render_width_is_the_longest_line() {
    let mut overlay = Overlay { open: false };
    let entries = vec![scheme_entry("gruvbox", 300), hell_entry(59)];
    let plan = plan_of(overlay.refresh(&entries, 120, true));
    assert_eq!(plan.width, "  05:00  Color Scheme - gruvbox  ".chars().count());
}

#[test]
fn render_col_clamps_on_narrow_screens() {
    let mut overlay = Overlay { open: false };
    let entries = vec![scheme_entry("gruvbox", 300)];
    let plan = plan_of(overlay.refresh(&entries, 10, true));
    assert_eq!(plan.col, 0);
}

#[test]
fn render_twice_is_idempotent() {
    let mut overlay = Overlay { open: false };
    let entries = vec![scheme_entry("gruvbox", 300)];
    let first = overlay.refresh(&entries, 120, true);
    assert!(matches!(first, WinOp::Open(_)));
    assert!(overlay.open);
    let second = overlay.refresh(&entries, 120, true);
    // the second render reuses the panel instead of reopening it
    let second_plan = match second {
        WinOp::Move(plan) => plan,
        _ => panic!("expected the panel to be reused"),
    };
    let first_plan = plan_of(first);
    assert_eq!(first_plan.lines, second_plan.lines);
    assert_eq!(first_plan.width, second_plan.width);
    assert_eq!(first_plan.height, second_plan.height);
    assert_eq!(first_plan.row, second_plan.row);
    assert_eq!(first_plan.col, second_plan.col);
}

#[test]
fn render_reopens_when_the_host_window_died() {
    let mut overlay = Overlay { open: true };
    let entries = vec![hell_entry(60)];
    let op = overlay.refresh(&entries, 120, false);
    assert!(matches!(op, WinOp::Open(_)));
}

#[test]
fn closing_a_closed_overlay_does_nothing() {
    let mut overlay = Overlay { open: true };
    assert!(matches!(overlay.close(), WinOp::Close));
    assert!(!overlay.open);
    assert!(matches!(overlay.close(), WinOp::Keep));
}
