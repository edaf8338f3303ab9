//! The status overlay: renders one `MM:SS  <name>` line per active entry
//! into a host panel anchored near the top-right corner of the screen, and
//! decides when the panel is opened, repositioned or destroyed.

use vstd::prelude::*;
use vstd::string::StrSliceExecFns;
use vstd::string::StringExecFns;

use crate::commands::ModeCommand;
use crate::engine::ModeState;

verus! {

/// The decimal digit as text.
pub open spec fn digit_seq(d: int) -> Seq<char> {
    if d == 0 {
        "0"@
    } else if d == 1 {
        "1"@
    } else if d == 2 {
        "2"@
    } else if d == 3 {
        "3"@
    } else if d == 4 {
        "4"@
    } else if d == 5 {
        "5"@
    } else if d == 6 {
        "6"@
    } else if d == 7 {
        "7"@
    } else if d == 8 {
        "8"@
    } else {
        "9"@
    }
}

/// The decimal representation of a non-negative number.
pub open spec fn dec_spec(n: int) -> Seq<char>
    decreases n,
{
    if n <= 9 {
        digit_seq(n)
    } else {
        dec_spec(n / 10) + digit_seq(n % 10)
    }
}

/// The decimal representation, zero-padded to at least two digits.
pub open spec fn pad2(n: int) -> Seq<char> {
    if n < 10 {
        "0"@ + dec_spec(n)
    } else {
        dec_spec(n)
    }
}

/// The overlay line of one active entry: `"  MM:SS  <name>  "`.
pub open spec fn line_of(e: ModeState) -> Seq<char> {
    "  "@ + pad2((e.seconds / 60) as int) + ":"@ + pad2((e.seconds % 60) as int) + "  "@
        + e.mode.spec_name() + "  "@
}

/// The body of the panel: one line per entry, in display order.
pub open spec fn body_lines(entries: Seq<ModeState>) -> Seq<Seq<char>> {
    entries.map_values(|e: ModeState| line_of(e))
}

/// The panel's text: one line per entry, between two blank padding rows.
pub open spec fn overlay_lines(entries: Seq<ModeState>) -> Seq<Seq<char>> {
    seq![Seq::<char>::empty()] + body_lines(entries) + seq![Seq::<char>::empty()]
}

/// The longest entry line, in characters; the panel's width.
pub open spec fn max_line_len(entries: Seq<ModeState>) -> int
    decreases entries.len(),
{
    if entries.len() == 0 {
        0
    } else {
        let rest = max_line_len(entries.drop_last());
        let l = line_of(entries.last()).len() as int;
        if l > rest {
            l
        } else {
            rest
        }
    }
}

/// The panel's left edge: flush to the right screen edge with a fixed
/// margin, clamped at the left edge when the panel is wider than the screen.
pub open spec fn anchor_col(width: int, columns: int) -> int {
    if columns >= width + 4 {
        columns - 4 - width
    } else {
        0
    }
}

/// Geometry and content of one overlay render.
pub struct RenderPlan {
    pub lines: Vec<String>,
    pub width: usize,
    pub height: usize,
    pub row: usize,
    pub col: usize,
}

/// The mathematical value of a `RenderPlan`.
pub struct PlanView {
    pub lines: Seq<Seq<char>>,
    pub width: int,
    pub height: int,
    pub row: int,
    pub col: int,
}

impl View for RenderPlan {
    type V = PlanView;

    open spec fn view(&self) -> PlanView {
        PlanView {
            lines: self.lines.deep_view(),
            width: self.width as int,
            height: self.height as int,
            row: self.row as int,
            col: self.col as int,
        }
    }
}

/// The plan for a given engine state and screen width.
pub open spec fn spec_plan(entries: Seq<ModeState>, columns: int) -> PlanView {
    let w = max_line_len(entries);
    PlanView {
        lines: overlay_lines(entries),
        width: w,
        height: entries.len() as int + 2,
        row: 1,
        col: anchor_col(w, columns),
    }
}

/// One host-window operation asked of the glue.
pub enum WinOp {
    /// Open a fresh panel with this plan.
    Open(RenderPlan),
    /// Reposition and refill the existing panel.
    Move(RenderPlan),
    /// Destroy the panel.
    Close,
    /// Nothing to do.
    Keep,
}

/// The mathematical value of a `WinOp`.
pub enum WinOpView {
    Open(PlanView),
    Move(PlanView),
    Close,
    Keep,
}

impl View for WinOp {
    type V = WinOpView;

    open spec fn view(&self) -> WinOpView {
        match self {
            WinOp::Open(p) => WinOpView::Open(p@),
            WinOp::Move(p) => WinOpView::Move(p@),
            WinOp::Close => WinOpView::Close,
            WinOp::Keep => WinOpView::Keep,
        }
    }
}

/// The operation a re-render produces: reuse the panel when it is open and
/// its handle is still valid, otherwise open a fresh one.
pub open spec fn refresh_op(open: bool, valid: bool, entries: Seq<ModeState>, columns: int) -> WinOpView {
    if open && valid {
        WinOpView::Move(spec_plan(entries, columns))
    } else {
        WinOpView::Open(spec_plan(entries, columns))
    }
}

/// The operation closing produces: destroy the panel only if one is open.
pub open spec fn close_op(open: bool) -> WinOpView {
    if open {
        WinOpView::Close
    } else {
        WinOpView::Keep
    }
}

fn digit_str(n: u32) -> (r: String)
    requires
        n <= 9,
    ensures
        r@ == digit_seq(n as int),
{
    if n == 0 {
        String::from_str("0")
    } else if n == 1 {
        String::from_str("1")
    } else if n == 2 {
        String::from_str("2")
    } else if n == 3 {
        String::from_str("3")
    } else if n == 4 {
        String::from_str("4")
    } else if n == 5 {
        String::from_str("5")
    } else if n == 6 {
        String::from_str("6")
    } else if n == 7 {
        String::from_str("7")
    } else if n == 8 {
        String::from_str("8")
    } else {
        String::from_str("9")
    }
}

fn dec_str(n: u32) -> (r: String)
    ensures
        r@ == dec_spec(n as int),
    decreases n,
{
    if n <= 9 {
        digit_str(n)
    } else {
        let mut s = dec_str(n / 10);
        let d = digit_str(n % 10);
        s.append(d.as_str());
        s
    }
}

fn pad2_str(n: u32) -> (r: String)
    ensures
        r@ == pad2(n as int),
{
    if n < 10 {
        let mut s = String::from_str("0");
        let d = digit_str(n);
        s.append(d.as_str());
        s
    } else {
        dec_str(n)
    }
}

/// The overlay line of one entry.
fn render_line(e: &ModeState) -> (r: String)
    ensures
        r@ == line_of(*e),
{
    let minutes = e.seconds / 60;
    let secs = e.seconds % 60;
    let mut s = String::from_str("  ");
    let m = pad2_str(minutes);
    s.append(m.as_str());
    s.append(":");
    let sec = pad2_str(secs);
    s.append(sec.as_str());
    s.append("  ");
    let name = e.mode.name();
    s.append(name.as_str());
    s.append("  ");
    s
}

/// The overlay's own state: whether a panel is currently open.
pub struct Overlay {
    pub open: bool,
}

impl Overlay {
    /// Renders the entries: computes the panel text and geometry, and asks
    /// the glue to open or reuse the panel.
    pub fn refresh(&mut self, entries: &Vec<ModeState>, columns: usize, valid: bool) -> (op: WinOp)
        requires
            entries@.len() + 2 <= usize::MAX,
        ensures
            final(self).open,
            op@ == refresh_op(old(self).open, valid, entries@, columns as int),
    {
        let n = entries.len();
        let mut lines: Vec<String> = Vec::new();
        lines.push(String::new());
        let mut width: usize = 0;
        let mut i: usize = 0;
        while i < n
            invariant
                n == entries@.len(),
                0 <= i <= n,
                lines@.len() == i + 1,
                lines@[0]@ == Seq::<char>::empty(),
                forall|k: int| 0 <= k < i ==> lines@[k + 1]@ == line_of(entries@[k]),
                width as int == max_line_len(entries@.subrange(0, i as int)),
            decreases n - i,
        {
            let line = render_line(&entries[i]);
            let l = line.as_str().unicode_len();
            if l > width {
                width = l;
            }
            lines.push(line);
            proof {
                assert(entries@.subrange(0, i + 1).drop_last() =~= entries@.subrange(0, i as int));
                assert(entries@.subrange(0, i + 1).last() == entries@[i as int]);
            }
            i = i + 1;
        }
        lines.push(String::new());
        let height = n + 2;
        let col = if columns >= width {
            let rem = columns - width;
            if rem >= 4 {
                rem - 4
            } else {
                0
            }
        } else {
            0
        };
        proof {
            assert(entries@.subrange(0, n as int) =~= entries@);
            assert forall|k: int|
                0 <= k < lines.deep_view().len() implies lines.deep_view()[k] == overlay_lines(
                entries@,
            )[k] by {
                assert(lines.deep_view()[k] == lines@[k]@);
                if k == 0 {
                } else if k <= n {
                    assert(body_lines(entries@)[k - 1] == line_of(entries@[k - 1]));
                } else {
                    assert(lines@[k]@ == Seq::<char>::empty());
                }
            }
            assert(lines.deep_view() =~= overlay_lines(entries@));
        }
        let plan = RenderPlan { lines, width, height, row: 1, col };
        let was_open = self.open;
        self.open = true;
        if was_open && valid {
            WinOp::Move(plan)
        } else {
            WinOp::Open(plan)
        }
    }

    /// Destroys the panel if one is open.
    pub fn close(&mut self) -> (op: WinOp)
        ensures
            !final(self).open,
            op@ == close_op(old(self).open),
    {
        let was_open = self.open;
        self.open = false;
        if was_open {
            WinOp::Close
        } else {
            WinOp::Keep
        }
    }
}

/// Idempotent render: re-rendering with an unchanged engine state and screen
/// yields the same panel geometry and text both times, and the second render
/// reuses the panel (it never reopens one that the first render left open
/// and the host still reports valid).
pub proof fn lemma_render_idempotent(
    open: bool,
    valid: bool,
    entries: Seq<ModeState>,
    columns: int,
)
    ensures
        ({
            let first = refresh_op(open, valid, entries, columns);
            let second = refresh_op(true, valid, entries, columns);
            &&& (first matches WinOpView::Open(p) ==> p == spec_plan(entries, columns))
            &&& (first matches WinOpView::Move(p) ==> p == spec_plan(entries, columns))
            &&& (valid ==> second == WinOpView::Move(spec_plan(entries, columns)))
        }),
{
}

} // verus!
