//! The mode engine: the single-threaded state machine holding the set of
//! currently active (mode, remaining-seconds) entries, keyed by mode kind.
//!
//! Every operation reports the start/stop transitions it performed as a list
//! of events, and the window operation for the status overlay; the glue
//! performs both.

use vstd::prelude::*;

use crate::commands::Mode;
use crate::commands::ModeCommand;
use crate::commands::ModeType;
use crate::host::HostView;
use crate::overlay::close_op;
use crate::overlay::refresh_op;
use crate::overlay::Overlay;
use crate::overlay::WinOp;

verus! {

/// One active entry: a started mode, its kind, and its remaining time.
pub struct ModeState {
    pub mode: Mode,
    pub mode_type: ModeType,
    pub seconds: u32,
}

impl Clone for ModeState {
    fn clone(&self) -> (r: Self)
        ensures
            r == *self,
    {
        ModeState { mode: self.mode.clone(), mode_type: self.mode_type, seconds: self.seconds }
    }
}

/// One mode transition the engine performed.
#[derive(Debug, PartialEq)]
pub enum ModeEvent {
    /// The mode's start actions are owed to the host, exactly once.
    Started(Mode),
    /// The mode's stop actions are owed to the host, exactly once.
    Stopped(Mode),
}

/// No two entries share a kind (the uniqueness invariant).
pub open spec fn unique_kinds(s: Seq<ModeState>) -> bool {
    forall|i: int, j: int| 0 <= i < j < s.len() ==> s[i].mode_type != s[j].mode_type
}

/// Whether some entry has the given kind.
pub open spec fn has_kind(s: Seq<ModeState>, kt: ModeType) -> bool {
    exists|i: int| 0 <= i < s.len() && (#[trigger] s[i]).mode_type == kt
}

/// The entry of the given kind, if any.
pub open spec fn find_kind(s: Seq<ModeState>, kt: ModeType) -> Option<ModeState>
    decreases s.len(),
{
    if s.len() == 0 {
        None
    } else if s.last().mode_type == kt {
        Some(s.last())
    } else {
        find_kind(s.drop_last(), kt)
    }
}

/// The entries with the given kind removed, order kept.
pub open spec fn without_kind(s: Seq<ModeState>, kt: ModeType) -> Seq<ModeState>
    decreases s.len(),
{
    if s.len() == 0 {
        Seq::empty()
    } else {
        without_kind(s.drop_last(), kt) + (if s.last().mode_type == kt {
            Seq::<ModeState>::empty()
        } else {
            seq![s.last()]
        })
    }
}

/// The stop events for every entry of the given kind, in entry order.
pub open spec fn stop_events_for_kind(s: Seq<ModeState>, kt: ModeType) -> Seq<ModeEvent>
    decreases s.len(),
{
    if s.len() == 0 {
        Seq::empty()
    } else {
        stop_events_for_kind(s.drop_last(), kt) + (if s.last().mode_type == kt {
            seq![ModeEvent::Stopped(s.last().mode)]
        } else {
            Seq::<ModeEvent>::empty()
        })
    }
}

/// The entries after accepting a valid mode: any entry of the same kind is
/// replaced, and the new entry appends in display order.
pub open spec fn apply_set_mode(
    s: Seq<ModeState>,
    mode: Mode,
    kt: ModeType,
    seconds: u32,
) -> Seq<ModeState> {
    without_kind(s, kt).push(ModeState { mode, mode_type: kt, seconds })
}

/// The events a valid `set_mode` reports: stops of the replaced entry, then
/// the start of the new one.
pub open spec fn set_mode_events(s: Seq<ModeState>, kt: ModeType, mode: Mode) -> Seq<ModeEvent> {
    stop_events_for_kind(s, kt).push(ModeEvent::Started(mode))
}

/// The entries after one tick: entries whose time ran out leave, every
/// survivor loses one second.
pub open spec fn tick_entries(s: Seq<ModeState>) -> Seq<ModeState>
    decreases s.len(),
{
    if s.len() == 0 {
        Seq::empty()
    } else {
        tick_entries(s.drop_last()) + (if s.last().seconds == 0 {
            Seq::<ModeState>::empty()
        } else {
            seq![ModeState { seconds: (s.last().seconds - 1) as u32, ..s.last() }]
        })
    }
}

/// The stop events one tick reports: one per expired entry, in entry order.
pub open spec fn tick_stop_events(s: Seq<ModeState>) -> Seq<ModeEvent>
    decreases s.len(),
{
    if s.len() == 0 {
        Seq::empty()
    } else {
        tick_stop_events(s.drop_last()) + (if s.last().seconds == 0 {
            seq![ModeEvent::Stopped(s.last().mode)]
        } else {
            Seq::<ModeEvent>::empty()
        })
    }
}

/// The stop events of a teardown: one per entry, in entry order.
pub open spec fn close_events(s: Seq<ModeState>) -> Seq<ModeEvent>
    decreases s.len(),
{
    if s.len() == 0 {
        Seq::empty()
    } else {
        close_events(s.drop_last()) + seq![ModeEvent::Stopped(s.last().mode)]
    }
}

/// Removing a kind keeps the remaining kinds, removes every entry of the
/// removed kind, and preserves uniqueness.
pub proof fn lemma_without_kind(s: Seq<ModeState>, kt: ModeType)
    ensures
        forall|i: int|
            0 <= i < without_kind(s, kt).len() ==> (#[trigger] without_kind(s, kt)[i]).mode_type
                != kt,
        forall|k2: ModeType| #[trigger] has_kind(without_kind(s, kt), k2) ==> has_kind(s, k2),
        unique_kinds(s) ==> unique_kinds(without_kind(s, kt)),
    decreases s.len(),
{
    if s.len() > 0 {
        let d = s.drop_last();
        lemma_without_kind(d, kt);
        assert forall|k2: ModeType| #[trigger] has_kind(d, k2) implies has_kind(s, k2) by {
            let i = choose|i: int| 0 <= i < d.len() && (#[trigger] d[i]).mode_type == k2;
            assert(s[i].mode_type == k2);
        }
        if unique_kinds(s) {
            assert forall|i: int, j: int| 0 <= i < j < d.len() implies d[i].mode_type
                != d[j].mode_type by {
                assert(s[i].mode_type != s[j].mode_type);
            }
        }
        let wd = without_kind(d, kt);
        if s.last().mode_type == kt {
            assert(without_kind(s, kt) =~= wd);
        } else {
            let w = wd + seq![s.last()];
            assert(without_kind(s, kt) =~= w);
            assert forall|k2: ModeType| #[trigger] has_kind(w, k2) implies has_kind(s, k2) by {
                let i = choose|i: int| 0 <= i < w.len() && (#[trigger] w[i]).mode_type == k2;
                if i < wd.len() {
                    assert(has_kind(wd, k2));
                } else {
                    assert(w[i] == s.last());
                    assert(s[s.len() - 1].mode_type == k2);
                }
            }
            if unique_kinds(s) {
                assert forall|i: int, j: int| 0 <= i < j < w.len() implies w[i].mode_type
                    != w[j].mode_type by {
                    if j < wd.len() {
                        assert(wd[i].mode_type != wd[j].mode_type);
                    } else {
                        assert(w[j] == s.last());
                        assert(w[i] == wd[i]);
                        if wd[i].mode_type == s.last().mode_type {
                            assert(has_kind(wd, s.last().mode_type));
                            let i0 = choose|i0: int|
                                0 <= i0 < d.len() && (#[trigger] d[i0]).mode_type
                                    == s.last().mode_type;
                            assert(s[i0].mode_type == s[s.len() - 1].mode_type);
                            assert(false);
                        }
                    }
                }
            }
        }
    }
}

/// With unique kinds there can be at most one entry per kind, and there are
/// only two kinds.
pub proof fn lemma_unique_len(s: Seq<ModeState>)
    requires
        unique_kinds(s),
    ensures
        s.len() <= 2,
{
    if s.len() >= 3 {
        assert(s[0].mode_type != s[1].mode_type);
        assert(s[0].mode_type != s[2].mode_type);
        assert(s[1].mode_type != s[2].mode_type);
        assert(false);
    }
}

/// `find_kind` agrees with `has_kind`, and what it finds lies in the
/// sequence with the kind asked for.
pub proof fn lemma_find_props(s: Seq<ModeState>, kt: ModeType)
    ensures
        (find_kind(s, kt) is Some) == has_kind(s, kt),
        find_kind(s, kt) matches Some(e) ==> e.mode_type == kt && s.contains(e),
    decreases s.len(),
{
    if s.len() > 0 {
        let d = s.drop_last();
        lemma_find_props(d, kt);
        if s.last().mode_type == kt {
            assert(s[s.len() - 1].mode_type == kt);
            assert(has_kind(s, kt));
        } else {
            if has_kind(d, kt) {
                let i = choose|i: int| 0 <= i < d.len() && (#[trigger] d[i]).mode_type == kt;
                assert(s[i].mode_type == kt);
            }
            if has_kind(s, kt) {
                let i = choose|i: int| 0 <= i < s.len() && (#[trigger] s[i]).mode_type == kt;
                assert(i < d.len() && d[i].mode_type == kt);
                assert(has_kind(d, kt));
            }
            if find_kind(d, kt) is Some {
                let e = find_kind(d, kt)->Some_0;
                let i = choose|i: int| 0 <= i < d.len() && d[i] == e;
                assert(s[i] == e);
            }
        }
    }
}

/// Removing a kind that is absent changes nothing, and its stop events are
/// empty; with unique kinds, replacing a present kind stops exactly that
/// entry.
pub proof fn lemma_stop_events(s: Seq<ModeState>, kt: ModeType)
    requires
        unique_kinds(s),
    ensures
        find_kind(s, kt) is None ==> stop_events_for_kind(s, kt) == Seq::<ModeEvent>::empty()
            && without_kind(s, kt) == s,
        find_kind(s, kt) matches Some(e) ==> stop_events_for_kind(s, kt) == seq![
            ModeEvent::Stopped(e.mode),
        ],
    decreases s.len(),
{
    lemma_find_props(s, kt);
    if s.len() > 0 {
        let d = s.drop_last();
        assert forall|i: int, j: int| 0 <= i < j < d.len() implies d[i].mode_type
            != d[j].mode_type by {
            assert(s[i].mode_type != s[j].mode_type);
        }
        lemma_stop_events(d, kt);
        lemma_find_props(d, kt);
        if s.last().mode_type == kt {
            // no other entry of this kind: d has none
            if has_kind(d, kt) {
                let i = choose|i: int| 0 <= i < d.len() && (#[trigger] d[i]).mode_type == kt;
                assert(s[i].mode_type == s[s.len() - 1].mode_type);
                assert(false);
            }
            assert(stop_events_for_kind(s, kt) =~= seq![ModeEvent::Stopped(s.last().mode)]);
        } else {
            if find_kind(s, kt) is None {
                assert(stop_events_for_kind(s, kt) =~= Seq::<ModeEvent>::empty());
                assert(without_kind(s, kt) =~= s);
            } else {
                let e = find_kind(s, kt)->Some_0;
                assert(stop_events_for_kind(s, kt) =~= seq![ModeEvent::Stopped(e.mode)]);
            }
        }
    }
}

/// One tick keeps uniqueness and introduces no kind; the entry of a kind
/// survives with one second less exactly when it had time left.
pub proof fn lemma_tick_find(s: Seq<ModeState>, kt: ModeType)
    requires
        unique_kinds(s),
    ensures
        unique_kinds(tick_entries(s)),
        forall|k2: ModeType| #[trigger] has_kind(tick_entries(s), k2) ==> has_kind(s, k2),
        match find_kind(s, kt) {
            None => find_kind(tick_entries(s), kt) is None,
            Some(e) => if e.seconds > 0 {
                find_kind(tick_entries(s), kt) == Some(
                    ModeState { seconds: (e.seconds - 1) as u32, ..e },
                )
            } else {
                find_kind(tick_entries(s), kt) is None
            },
        },
    decreases s.len(),
{
    lemma_find_props(s, kt);
    if s.len() > 0 {
        let d = s.drop_last();
        assert forall|i: int, j: int| 0 <= i < j < d.len() implies d[i].mode_type
            != d[j].mode_type by {
            assert(s[i].mode_type != s[j].mode_type);
        }
        lemma_tick_find(d, kt);
        lemma_find_props(d, kt);
        let td = tick_entries(d);
        assert forall|k2: ModeType| #[trigger] has_kind(td, k2) implies has_kind(s, k2) by {
            let i = choose|i: int| 0 <= i < d.len() && (#[trigger] d[i]).mode_type == k2;
            assert(s[i].mode_type == k2);
        }
        if s.last().seconds == 0 {
            assert(tick_entries(s) =~= td);
            if s.last().mode_type == kt {
                // d holds no entry of this kind, so neither does its tick
                if has_kind(d, kt) {
                    let i = choose|i: int| 0 <= i < d.len() && (#[trigger] d[i]).mode_type == kt;
                    assert(s[i].mode_type == s[s.len() - 1].mode_type);
                    assert(false);
                }
                if has_kind(td, kt) {
                    assert(false);
                }
            }
        } else {
            let last2 = ModeState { seconds: (s.last().seconds - 1) as u32, ..s.last() };
            let t = td + seq![last2];
            assert(tick_entries(s) =~= t);
            // uniqueness of the ticked sequence
            assert forall|i: int, j: int| 0 <= i < j < t.len() implies t[i].mode_type
                != t[j].mode_type by {
                if j < td.len() {
                    assert(td[i].mode_type != td[j].mode_type);
                } else {
                    assert(t[j] == last2);
                    assert(t[i] == td[i]);
                    if td[i].mode_type == last2.mode_type {
                        assert(has_kind(td, last2.mode_type));
                        let i0 = choose|i0: int|
                            0 <= i0 < d.len() && (#[trigger] d[i0]).mode_type == last2.mode_type;
                        assert(s[i0].mode_type == s[s.len() - 1].mode_type);
                        assert(false);
                    }
                }
            }
            // kinds of the ticked sequence come from s
            assert forall|k2: ModeType| #[trigger] has_kind(t, k2) implies has_kind(s, k2) by {
                let i = choose|i: int| 0 <= i < t.len() && (#[trigger] t[i]).mode_type == k2;
                if i < td.len() {
                    assert(has_kind(td, k2));
                } else {
                    assert(t[i] == last2);
                    assert(s[s.len() - 1].mode_type == k2);
                }
            }
            assert(t.last() == last2);
            assert(t.drop_last() =~= td);
            if s.last().mode_type == kt {
                assert(find_kind(tick_entries(s), kt) == Some(last2));
            } else {
                assert(find_kind(t, kt) == find_kind(td, kt));
            }
        }
    }
}

/// A tick stops every entry whose time ran out.
pub proof fn lemma_tick_stop_contains(s: Seq<ModeState>, i: int)
    requires
        0 <= i < s.len(),
        s[i].seconds == 0,
    ensures
        tick_stop_events(s).contains(ModeEvent::Stopped(s[i].mode)),
    decreases s.len(),
{
    let d = s.drop_last();
    if i == s.len() - 1 {
        let tail = seq![ModeEvent::Stopped(s.last().mode)];
        assert(tick_stop_events(s) == tick_stop_events(d) + tail);
        assert(tick_stop_events(s)[tick_stop_events(d).len() as int] == ModeEvent::Stopped(
            s[i].mode,
        ));
    } else {
        lemma_tick_stop_contains(d, i);
        let x = ModeEvent::Stopped(d[i].mode);
        let j = choose|j: int| 0 <= j < tick_stop_events(d).len() && tick_stop_events(d)[j] == x;
        assert(tick_stop_events(s)[j] == x);
    }
}


/// The entries after `k` ticks.
pub open spec fn tick_n(s: Seq<ModeState>, k: nat) -> Seq<ModeState>
    decreases k,
{
    if k == 0 {
        s
    } else {
        tick_entries(tick_n(s, (k - 1) as nat))
    }
}

/// Countdown monotonicity, surviving part: an entry that entered with `N`
/// seconds and whose kind is left alone still stands after `k <= N` ticks,
/// with exactly `N - k` seconds remaining (I2).
pub proof fn lemma_countdown_monotonic(s: Seq<ModeState>, e: ModeState, k: nat)
    requires
        unique_kinds(s),
        find_kind(s, e.mode_type) == Some(e),
        k <= e.seconds,
    ensures
        unique_kinds(tick_n(s, k)),
        find_kind(tick_n(s, k), e.mode_type) == Some(
            ModeState { seconds: (e.seconds - k) as u32, ..e },
        ),
    decreases k,
{
    if k == 0 {
        assert(ModeState { seconds: (e.seconds - 0) as u32, ..e } == e);
    } else {
        lemma_countdown_monotonic(s, e, (k - 1) as nat);
        let t = tick_n(s, (k - 1) as nat);
        let e1 = ModeState { seconds: (e.seconds - (k - 1)) as u32, ..e };
        lemma_tick_find(t, e.mode_type);
        assert(e1.seconds > 0);
        assert(find_kind(tick_entries(t), e.mode_type) == Some(
            ModeState { seconds: (e1.seconds - 1) as u32, ..e1 },
        ));
        assert(ModeState { seconds: (e1.seconds - 1) as u32, ..e1 } == ModeState {
            seconds: (e.seconds - k) as u32,
            ..e
        });
    }
}

/// Countdown expiry: the entry keeps time left through its first `N` ticks,
/// the tick after that stops it exactly once, and from then on its kind is
/// gone until a new `set_mode` brings it back.
pub proof fn lemma_countdown_expiry(s: Seq<ModeState>, e: ModeState)
    requires
        unique_kinds(s),
        find_kind(s, e.mode_type) == Some(e),
    ensures
        forall|j: nat|
            j < e.seconds ==> ((#[trigger] find_kind(tick_n(s, j), e.mode_type)) matches Some(e2)
                && e2.seconds > 0),
        tick_stop_events(tick_n(s, e.seconds as nat)).contains(ModeEvent::Stopped(e.mode)),
        find_kind(tick_n(s, e.seconds as nat + 1), e.mode_type) is None,
{
    let n = e.seconds as nat;
    lemma_countdown_monotonic(s, e, n);
    let t = tick_n(s, n);
    let e0 = ModeState { seconds: (e.seconds - n) as u32, ..e };
    lemma_find_props(t, e.mode_type);
    assert(t.contains(e0));
    let i = choose|i: int| 0 <= i < t.len() && t[i] == e0;
    lemma_tick_stop_contains(t, i);
    lemma_tick_find(t, e.mode_type);
    assert(tick_n(s, n + 1) == tick_entries(t));
    assert forall|j: nat|
        j < e.seconds implies ((#[trigger] find_kind(tick_n(s, j), e.mode_type)) matches Some(e2)
        && e2.seconds > 0) by {
        lemma_countdown_monotonic(s, e, j);
    }
}

/// Replacement cleanliness: accepting mode `a` for a previously free kind
/// reports only `Started(a)`; replacing it with `b` reports exactly
/// `Stopped(a)` then `Started(b)`, and afterwards exactly one entry of that
/// kind stands, carrying `b` and the new duration (I3, I4).
pub proof fn lemma_replacement(s: Seq<ModeState>, a: Mode, b: Mode, kt: ModeType, da: u32, db: u32)
    requires
        unique_kinds(s),
        find_kind(s, kt) is None,
    ensures
        ({
            let ea = ModeState { mode: a, mode_type: kt, seconds: da };
            let eb = ModeState { mode: b, mode_type: kt, seconds: db };
            let s1 = apply_set_mode(s, a, kt, da);
            let s2 = apply_set_mode(s1, b, kt, db);
            &&& set_mode_events(s, kt, a) == seq![ModeEvent::Started(a)]
            &&& s1 == s.push(ea)
            &&& set_mode_events(s1, kt, b) == seq![ModeEvent::Stopped(a), ModeEvent::Started(b)]
            &&& unique_kinds(s2)
            &&& find_kind(s2, kt) == Some(eb)
            &&& forall|i: int|
                0 <= i < s2.len() && (#[trigger] s2[i]).mode_type == kt ==> s2[i] == eb
        }),
{
    let ea = ModeState { mode: a, mode_type: kt, seconds: da };
    let eb = ModeState { mode: b, mode_type: kt, seconds: db };
    lemma_stop_events(s, kt);
    assert(set_mode_events(s, kt, a) =~= seq![ModeEvent::Started(a)]);
    let s1 = apply_set_mode(s, a, kt, da);
    assert(s1 =~= s.push(ea));
    lemma_find_props(s, kt);
    assert forall|i: int, j: int| 0 <= i < j < s1.len() implies s1[i].mode_type
        != s1[j].mode_type by {
        if j < s.len() {
            assert(s[i].mode_type != s[j].mode_type);
        } else {
            assert(s1[j] == ea);
            assert(s1[i] == s[i]);
            if s[i].mode_type == kt {
                assert(has_kind(s, kt));
                assert(false);
            }
        }
    }
    assert(s1.last() == ea);
    assert(find_kind(s1, kt) == Some(ea));
    lemma_stop_events(s1, kt);
    assert(set_mode_events(s1, kt, b) =~= seq![ModeEvent::Stopped(a), ModeEvent::Started(b)]);
    let s2 = apply_set_mode(s1, b, kt, db);
    lemma_without_kind(s1, kt);
    let w = without_kind(s1, kt);
    assert forall|i2: int, j2: int| 0 <= i2 < j2 < s2.len() implies s2[i2].mode_type
        != s2[j2].mode_type by {
        if j2 < w.len() {
            assert(w[i2].mode_type != w[j2].mode_type);
        } else {
            assert(s2[j2] == eb);
            assert(s2[i2] == w[i2]);
        }
    }
    assert(s2.last() == eb);
    assert(find_kind(s2, kt) == Some(eb));
    assert forall|i: int|
        0 <= i < s2.len() && (#[trigger] s2[i]).mode_type == kt implies s2[i] == eb by {
        if i < w.len() {
            assert(w[i].mode_type != kt);
            assert(false);
        } else {
            assert(s2[i] == eb);
        }
    }
}

/// Zero duration: a valid mode accepted with no time left still enters the
/// engine, stands in the rendered overlay for that render cycle, and the
/// very next tick stops it and removes it.
pub proof fn lemma_zero_duration(s: Seq<ModeState>, m: Mode, kt: ModeType)
    requires
        unique_kinds(s),
    ensures
        ({
            let e0 = ModeState { mode: m, mode_type: kt, seconds: 0 };
            let s1 = apply_set_mode(s, m, kt, 0);
            &&& find_kind(s1, kt) == Some(e0)
            &&& crate::overlay::overlay_lines(s1)[s1.len() as int] == crate::overlay::line_of(e0)
            &&& tick_stop_events(s1).contains(ModeEvent::Stopped(m))
            &&& find_kind(tick_entries(s1), kt) is None
        }),
{
    let e0 = ModeState { mode: m, mode_type: kt, seconds: 0 };
    lemma_without_kind(s, kt);
    let w = without_kind(s, kt);
    let s1 = apply_set_mode(s, m, kt, 0);
    assert(s1.last() == e0);
    assert(find_kind(s1, kt) == Some(e0));
    assert(crate::overlay::overlay_lines(s1)[s1.len() as int] == crate::overlay::body_lines(s1)[s1.len()
        - 1]);
    assert(crate::overlay::body_lines(s1)[s1.len() - 1] == crate::overlay::line_of(s1[s1.len() - 1]));
    assert forall|i2: int, j2: int| 0 <= i2 < j2 < s1.len() implies s1[i2].mode_type
        != s1[j2].mode_type by {
        if j2 < w.len() {
            assert(w[i2].mode_type != w[j2].mode_type);
        } else {
            assert(s1[j2] == e0);
            assert(s1[i2] == w[i2]);
        }
    }
    lemma_tick_stop_contains(s1, s1.len() - 1);
    lemma_tick_find(s1, kt);
}

/// The engine's state: the active entries and the overlay panel.
pub struct EngineState {
    entries: Vec<ModeState>,
    overlay: Overlay,
}

impl EngineState {
    /// The active entries, in display order.
    pub closed spec fn entries_view(&self) -> Seq<ModeState> {
        self.entries@
    }

    /// Whether the overlay panel is open.
    pub closed spec fn overlay_open(&self) -> bool {
        self.overlay.open
    }

    #[verifier::type_invariant]
    spec fn inv(&self) -> bool {
        unique_kinds(self.entries@)
    }

    /// Read access for display and tests.
    pub fn entries(&self) -> (r: &Vec<ModeState>)
        ensures
            r@ == self.entries_view(),
    {
        &self.entries
    }

    pub fn overlay_is_open(&self) -> (r: bool)
        ensures
            r == self.overlay_open(),
    {
        self.overlay.open
    }

    /// Validates the mode and, when valid, replaces any entry of the same
    /// kind (stopping it first), starts the new mode, appends its entry, and
    /// re-renders the overlay. An invalid mode is silently rejected.
    pub fn set_mode(
        &mut self,
        mode: Mode,
        mode_type: ModeType,
        seconds: u32,
        host: &HostView,
    ) -> (r: (Vec<ModeEvent>, WinOp))
        ensures
            unique_kinds(final(self).entries_view()),
            mode.spec_valid(host) ==> {
                &&& final(self).entries_view() == apply_set_mode(
                    old(self).entries_view(),
                    mode,
                    mode_type,
                    seconds,
                )
                &&& r.0@ == set_mode_events(old(self).entries_view(), mode_type, mode)
                &&& r.1@ == refresh_op(
                    old(self).overlay_open(),
                    host.overlay_valid,
                    final(self).entries_view(),
                    host.columns as int,
                )
                &&& final(self).overlay_open()
            },
            !mode.spec_valid(host) ==> {
                &&& *final(self) == *old(self)
                &&& r.0@ == Seq::<ModeEvent>::empty()
                &&& r.1 is Keep
            },
    {
        proof {
            use_type_invariant(&*self);
        }
        let mut events: Vec<ModeEvent> = Vec::new();
        if !mode.is_valid(host) {
            proof {
                assert(events@ =~= Seq::<ModeEvent>::empty());
            }
            return (events, WinOp::Keep);
        }
        let ghost s0 = self.entries@;
        let n = self.entries.len();
        let mut new_entries: Vec<ModeState> = Vec::new();
        let mut i: usize = 0;
        while i < n
            invariant
                n == self.entries@.len(),
                0 <= i <= n,
                new_entries@ == without_kind(self.entries@.subrange(0, i as int), mode_type),
                events@ == stop_events_for_kind(self.entries@.subrange(0, i as int), mode_type),
            decreases n - i,
        {
            let ghost pre = self.entries@.subrange(0, i as int);
            if self.entries[i].mode_type == mode_type {
                events.push(ModeEvent::Stopped(self.entries[i].mode.clone()));
            } else {
                new_entries.push(self.entries[i].clone());
            }
            proof {
                let cur = self.entries@.subrange(0, i + 1);
                assert(cur.drop_last() =~= pre);
                assert(cur.last() == self.entries@[i as int]);
                assert(new_entries@ =~= without_kind(cur, mode_type));
                assert(events@ =~= stop_events_for_kind(cur, mode_type));
            }
            i = i + 1;
        }
        proof {
            assert(self.entries@.subrange(0, n as int) =~= s0);
        }
        events.push(ModeEvent::Started(mode.clone()));
        new_entries.push(ModeState { mode, mode_type, seconds });
        proof {
            lemma_without_kind(s0, mode_type);
            let w = without_kind(s0, mode_type);
            assert forall|i2: int, j2: int|
                0 <= i2 < j2 < new_entries@.len() implies new_entries@[i2].mode_type
                != new_entries@[j2].mode_type by {
                if j2 < w.len() {
                    assert(w[i2].mode_type != w[j2].mode_type);
                } else {
                    assert(new_entries@[j2].mode_type == mode_type);
                    assert(new_entries@[i2] == w[i2]);
                }
            }
            lemma_unique_len(new_entries@);
        }
        self.entries = new_entries;
        let mut ov = Overlay { open: false };
        std::mem::swap(&mut ov, &mut self.overlay);
        let op = ov.refresh(&self.entries, host.columns, host.overlay_valid);
        self.overlay = ov;
        proof {
            use_type_invariant(&*self);
        }
        (events, op)
    }

    /// Advances all entries by one second: entries whose time already ran
    /// out are stopped and removed, every survivor loses one second, and the
    /// overlay is re-rendered, or closed when nothing remains. An entry
    /// added with no time left survives until the next tick.
    pub fn tick(&mut self, host: &HostView) -> (r: (Vec<ModeEvent>, WinOp))
        ensures
            unique_kinds(final(self).entries_view()),
            final(self).entries_view() == tick_entries(old(self).entries_view()),
            r.0@ == tick_stop_events(old(self).entries_view()),
            final(self).entries_view().len() > 0 ==> {
                &&& r.1@ == refresh_op(
                    old(self).overlay_open(),
                    host.overlay_valid,
                    final(self).entries_view(),
                    host.columns as int,
                )
                &&& final(self).overlay_open()
            },
            final(self).entries_view().len() == 0 ==> {
                &&& r.1@ == close_op(old(self).overlay_open())
                &&& !final(self).overlay_open()
            },
    {
        proof {
            use_type_invariant(&*self);
        }
        let ghost s0 = self.entries@;
        let n = self.entries.len();
        let mut events: Vec<ModeEvent> = Vec::new();
        let mut new_entries: Vec<ModeState> = Vec::new();
        let mut i: usize = 0;
        while i < n
            invariant
                n == self.entries@.len(),
                0 <= i <= n,
                new_entries@ == tick_entries(self.entries@.subrange(0, i as int)),
                events@ == tick_stop_events(self.entries@.subrange(0, i as int)),
            decreases n - i,
        {
            let ghost pre = self.entries@.subrange(0, i as int);
            if self.entries[i].seconds == 0 {
                events.push(ModeEvent::Stopped(self.entries[i].mode.clone()));
            } else {
                new_entries.push(
                    ModeState {
                        mode: self.entries[i].mode.clone(),
                        mode_type: self.entries[i].mode_type,
                        seconds: self.entries[i].seconds - 1,
                    },
                );
            }
            proof {
                let cur = self.entries@.subrange(0, i + 1);
                assert(cur.drop_last() =~= pre);
                assert(cur.last() == self.entries@[i as int]);
                assert(new_entries@ =~= tick_entries(cur));
                assert(events@ =~= tick_stop_events(cur));
            }
            i = i + 1;
        }
        proof {
            assert(self.entries@.subrange(0, n as int) =~= s0);
            // only the uniqueness part is needed; the kind is irrelevant
            lemma_tick_find(s0, ModeType::ColorSchemeType);
            lemma_unique_len(new_entries@);
        }
        self.entries = new_entries;
        let mut ov = Overlay { open: false };
        std::mem::swap(&mut ov, &mut self.overlay);
        let op: WinOp;
        if self.entries.len() == 0 {
            op = ov.close();
        } else {
            op = ov.refresh(&self.entries, host.columns, host.overlay_valid);
        }
        self.overlay = ov;
        proof {
            use_type_invariant(&*self);
        }
        (events, op)
    }

    /// Teardown: stops every active entry, empties the engine, and destroys
    /// the overlay panel.
    pub fn close(&mut self) -> (r: (Vec<ModeEvent>, WinOp))
        ensures
            final(self).entries_view() == Seq::<ModeState>::empty(),
            !final(self).overlay_open(),
            r.0@ == close_events(old(self).entries_view()),
            r.1@ == close_op(old(self).overlay_open()),
    {
        proof {
            use_type_invariant(&*self);
        }
        let ghost s0 = self.entries@;
        let n = self.entries.len();
        let mut events: Vec<ModeEvent> = Vec::new();
        let mut i: usize = 0;
        while i < n
            invariant
                n == self.entries@.len(),
                0 <= i <= n,
                events@ == close_events(self.entries@.subrange(0, i as int)),
            decreases n - i,
        {
            let ghost pre = self.entries@.subrange(0, i as int);
            events.push(ModeEvent::Stopped(self.entries[i].mode.clone()));
            proof {
                let cur = self.entries@.subrange(0, i + 1);
                assert(cur.drop_last() =~= pre);
                assert(cur.last() == self.entries@[i as int]);
                assert(events@ =~= close_events(cur));
            }
            i = i + 1;
        }
        proof {
            assert(self.entries@.subrange(0, n as int) =~= s0);
        }
        self.entries = Vec::new();
        let mut ov = Overlay { open: false };
        std::mem::swap(&mut ov, &mut self.overlay);
        let op = ov.close();
        self.overlay = ov;
        (events, op)
    }
}

impl Default for EngineState {
    /// A fresh engine: no active entries, no panel.
    fn default() -> (r: Self)
        ensures
            r.entries_view() == Seq::<ModeState>::empty(),
            !r.overlay_open(),
    {
        EngineState { entries: Vec::new(), overlay: Overlay { open: false } }
    }
}

} // verus!
