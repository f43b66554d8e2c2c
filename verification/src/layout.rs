use vstd::prelude::*;

use crate::mode::{klid_for, klid_spec, Mode};
use crate::wide::{encode_wide, le_bytes, le_bytes_of, utf16_of};

verus! {

/// Whether a loaded layout handle is dropped when the session is collapsed
/// to the layout `keep`: every non-null handle other than `keep`.
pub open spec fn is_unloaded(keep: isize, h: isize) -> bool {
    h != 0 && h != keep
}

/// How many entries of the handle list are valid when the list call reported
/// `n`: never negative, never more than the list holds.
pub open spec fn valid_count(len: int, n: i32) -> int {
    if n <= 0 {
        0
    } else if n as int > len {
        len
    } else {
        n as int
    }
}

/// The layouts to unload, in list order, so that only `keep` stays loaded.
/// With `keep` null nothing is unloaded: the session must never be left
/// without a layout.
pub open spec fn unload_list_spec(keep: isize, list: Seq<isize>, n: i32) -> Seq<isize> {
    if keep == 0 {
        Seq::empty()
    } else {
        list.take(valid_count(list.len() as int, n)).filter(|h: isize| is_unloaded(keep, h))
    }
}

/// Picks, from the first `n` entries of the loaded-layout list, the handles
/// to unload so that the session keeps the single layout `keep`.
pub fn layouts_to_unload(keep: isize, list: &Vec<isize>, n: i32) -> (out: Vec<isize>)
    ensures
        out@ == unload_list_spec(keep, list@, n),
{
    let mut out: Vec<isize> = Vec::new();
    if keep == 0 {
        return out;
    }
    let count: usize = if n <= 0 {
        0
    } else if n as usize > list.len() {
        list.len()
    } else {
        n as usize
    };
    let ghost pred = |h: isize| is_unloaded(keep, h);
    let mut i: usize = 0;
    while i < count
        invariant
            keep != 0,
            pred == (|h: isize| is_unloaded(keep, h)),
            count == valid_count(list@.len() as int, n),
            count <= list@.len(),
            i <= count,
            out@ == list@.take(i as int).filter(pred),
        decreases count - i,
    {
        let h = list[i];
        if h != 0 && h != keep {
            out.push(h);
        }
        proof {
            reveal_with_fuel(Seq::filter, 1);
            let s = list@.take(i + 1);
            assert(s.drop_last() == list@.take(i as int));
            assert(s.last() == h);
            assert(pred(h) == (h != 0 && h != keep));
            assert(out@ == s.filter(pred));
        }
        i = i + 1;
    }
    out
}

/// Collapsing leaves only the kept layout: when `keep` was loaded, every
/// valid, non-null handle of the list other than `keep` is unloaded (whatever
/// language it shares with `keep`), and everything unloaded comes from the
/// valid part of the list.
pub proof fn lemma_unload_removes_all_others(keep: isize, list: Seq<isize>, n: i32)
    requires
        keep != 0,
    ensures
        forall|i: int|
            0 <= i < list.len() && i < n && #[trigger] list[i] != 0 && list[i] != keep
                ==> unload_list_spec(keep, list, n).contains(list[i]),
        forall|h: isize|
            #[trigger] unload_list_spec(keep, list, n).contains(h) ==> h != 0 && h != keep
                && exists|i: int| 0 <= i < list.len() && i < n && list[i] == h,
{
    let pred = |h: isize| is_unloaded(keep, h);
    let s = list.take(valid_count(list.len() as int, n));
    broadcast use vstd::seq_lib::group_filter_ensures;

    assert forall|i: int|
        0 <= i < list.len() && i < n && #[trigger] list[i] != 0 && list[i] != keep implies unload_list_spec(
            keep,
            list,
            n,
        ).contains(list[i]) by {
        assert(s[i] == list[i]);
        s.lemma_filter_contains(pred, i);
    }
    assert forall|h: isize| #[trigger] unload_list_spec(keep, list, n).contains(h) implies h != 0
        && h != keep && exists|i: int| 0 <= i < list.len() && i < n && list[i] == h by {
        s.lemma_filter_contains_rev(pred, h);
        let k = choose|k: int| 0 <= k < s.len() && s[k] == h;
        assert(list[k] == h);
        let t = s.filter(pred);
        let m = choose|m: int| 0 <= m < t.len() && t[m] == h;
        assert(pred(t[m]));
    }
}

/// The kept layout and null handles are never among those unloaded, and
/// nothing is unloaded when the kept layout could not be loaded.
pub proof fn lemma_unload_spares_kept(keep: isize, list: Seq<isize>, n: i32)
    ensures
        forall|i: int|
            0 <= i < unload_list_spec(keep, list, n).len() ==> #[trigger] unload_list_spec(
                keep,
                list,
                n,
            )[i] != keep && unload_list_spec(keep, list, n)[i] != 0,
        keep == 0 ==> unload_list_spec(keep, list, n).len() == 0,
{
    if keep != 0 {
        let pred = |h: isize| is_unloaded(keep, h);
        let s = list.take(valid_count(list.len() as int, n));
        broadcast use vstd::seq_lib::group_filter_ensures;

        assert forall|i: int| 0 <= i < s.filter(pred).len() implies pred(
            #[trigger] s.filter(pred)[i],
        ) by {}
    }
}

/// The user-profile list of input methods loaded at sign-in, collapsed to a
/// single entry: the entry named "1" holds the chosen layout, and every other
/// numbered entry is removed.
pub struct PreloadPlan {
    /// Name (NUL-terminated) of the entry that is written.
    pub keep_name: Vec<u16>,
    /// `REG_SZ` bytes written under `keep_name`: the KLID of the mode.
    pub keep_data: Vec<u8>,
    /// Names (NUL-terminated) of the entries that are deleted.
    pub stale_names: Vec<Vec<u16>>,
}

/// The registry name of entry number `d` (a single digit) of the list.
pub open spec fn digit_name(d: int) -> Seq<u16> {
    seq![(0x30 + d) as u16, 0u16]
}

/// Whether a value name of the preload list is a number: one or more ASCII
/// digits, as the list's entries are named.
pub open spec fn is_numbered_name(name: Seq<u16>) -> bool {
    name.len() > 0 && forall|i: int| 0 <= i < name.len() ==> 0x30 <= #[trigger] name[i] <= 0x39
}

/// A numbered entry other than "1": one that the collapsed list must not keep.
pub open spec fn is_stale_name(name: Seq<u16>) -> bool {
    is_numbered_name(name) && name != seq![0x31u16]
}

/// The NUL-terminated names to delete, in the order the present value names
/// (without terminators) were listed: every stale one.
pub open spec fn stale_names_spec(present: Seq<Vec<u16>>) -> Seq<Seq<u16>>
    decreases present.len(),
{
    if present.len() == 0 {
        Seq::empty()
    } else {
        let rest = stale_names_spec(present.drop_last());
        if is_stale_name(present.last()@) {
            rest.push(present.last()@.push(0u16))
        } else {
            rest
        }
    }
}

/// Whether `name` (without terminator) is a stale entry.
fn is_stale(name: &Vec<u16>) -> (b: bool)
    ensures
        b == is_stale_name(name@),
{
    let n = name.len();
    if n == 0 {
        return false;
    }
    let mut i: usize = 0;
    while i < n
        invariant
            n == name@.len(),
            i <= n,
            forall|j: int| 0 <= j < i ==> 0x30 <= #[trigger] name@[j] <= 0x39,
        decreases n - i,
    {
        if name[i] < 0x30 || name[i] > 0x39 {
            assert(!is_numbered_name(name@));
            return false;
        }
        i = i + 1;
    }
    if n == 1 && name[0] == 0x31 {
        assert(name@ =~= seq![0x31u16]);
        false
    } else {
        assert(name@ != seq![0x31u16]) by {
            if n == 1 {
                assert(name@[0] != seq![0x31u16][0]);
            }
        }
        true
    }
}

/// What the preload list becomes for `mode`, given the names of the values
/// the list holds now (`present`, without terminators): "1" is written with
/// the mode's KLID, and every other numbered value is deleted.
pub fn preload_plan(mode: Mode, present: &Vec<Vec<u16>>) -> (plan: PreloadPlan)
    ensures
        plan.keep_name@ == digit_name(1),
        plan.keep_data@ == le_bytes_of(utf16_of(klid_spec(mode)).push(0u16)),
        plan.stale_names@.len() == stale_names_spec(present@).len(),
        forall|i: int|
            0 <= i < plan.stale_names@.len() ==> (#[trigger] plan.stale_names@[i])@
                == stale_names_spec(present@)[i],
{
    let klid = encode_wide(klid_for(mode));
    proof {
        reveal_strlit("00020409");
        reveal_strlit("00010416");
        lemma_utf16_len_bound(klid_spec(mode));
    }
    let keep_data = le_bytes(&klid);
    let mut stale_names: Vec<Vec<u16>> = Vec::new();
    let mut k: usize = 0;
    while k < present.len()
        invariant
            k <= present@.len(),
            stale_names@.len() == stale_names_spec(present@.take(k as int)).len(),
            forall|i: int|
                0 <= i < stale_names@.len() ==> (#[trigger] stale_names@[i])@
                    == stale_names_spec(present@.take(k as int))[i],
        decreases present.len() - k,
    {
        let name = &present[k];
        let ghost before = stale_names@;
        proof {
            let t = present@.take(k + 1);
            assert(t.drop_last() == present@.take(k as int));
            assert(t.last() == present@[k as int]);
        }
        if is_stale(name) {
            let mut terminated: Vec<u16> = Vec::new();
            let mut j: usize = 0;
            while j < name.len()
                invariant
                    j <= name@.len(),
                    terminated@ == name@.take(j as int),
                decreases name.len() - j,
            {
                terminated.push(name[j]);
                j = j + 1;
                assert(terminated@ == name@.take(j as int));
            }
            terminated.push(0u16);
            assert(name@.take(name@.len() as int) == name@);
            stale_names.push(terminated);
            assert forall|i: int| 0 <= i < stale_names@.len() implies (
            #[trigger] stale_names@[i])@ == stale_names_spec(present@.take(k + 1))[i] by {
                if i < before.len() {
                    assert(stale_names@[i] == before[i]);
                }
            }
        }
        k = k + 1;
    }
    assert(present@.take(present@.len() as int) == present@);
    let keep_name = vec![0x31u16, 0u16];
    assert(keep_name@ == digit_name(1));
    PreloadPlan { keep_name, keep_data, stale_names }
}

/// The collapsed list keeps a single numbered entry: every numbered value
/// present other than "1" is deleted, and nothing else is.
pub proof fn lemma_preload_single_entry(present: Seq<Vec<u16>>)
    ensures
        forall|i: int|
            0 <= i < present.len() && is_stale_name(#[trigger] present[i]@) ==> stale_names_spec(
                present,
            ).contains(present[i]@.push(0u16)),
        forall|j: int|
            0 <= j < stale_names_spec(present).len() ==> exists|i: int|
                0 <= i < present.len() && is_stale_name(#[trigger] present[i]@)
                    && #[trigger] stale_names_spec(present)[j] == present[i]@.push(0u16),
        !stale_names_spec(present).contains(digit_name(1)),
    decreases present.len(),
{
    if present.len() > 0 {
        let init = present.drop_last();
        lemma_preload_single_entry(init);
        let rest = stale_names_spec(init);
        let last = present.last();
        assert forall|i: int|
            0 <= i < present.len() && is_stale_name(#[trigger] present[i]@) implies stale_names_spec(
            present,
        ).contains(present[i]@.push(0u16)) by {
            if i < present.len() - 1 {
                assert(init[i] == present[i]);
                let j = choose|j: int| 0 <= j < rest.len() && rest[j] == init[i]@.push(0u16);
                assert(stale_names_spec(present)[j] == rest[j]);
            } else {
                assert(stale_names_spec(present).last() == last@.push(0u16));
            }
        }
        assert forall|j: int| 0 <= j < stale_names_spec(present).len() implies exists|i: int|
            0 <= i < present.len() && is_stale_name(#[trigger] present[i]@)
                && #[trigger] stale_names_spec(present)[j] == present[i]@.push(0u16) by {
            if j < rest.len() {
                assert(stale_names_spec(present)[j] == rest[j]);
                let i = choose|i: int|
                    0 <= i < init.len() && is_stale_name(#[trigger] init[i]@) && rest[j]
                        == init[i]@.push(0u16);
                assert(present[i] == init[i]);
            } else {
                assert(present[present.len() - 1] == last);
            }
        }
        if stale_names_spec(present).contains(digit_name(1)) {
            let j = choose|j: int|
                0 <= j < stale_names_spec(present).len() && stale_names_spec(present)[j]
                    == digit_name(1);
            let i = choose|i: int|
                0 <= i < present.len() && is_stale_name(#[trigger] present[i]@)
                    && stale_names_spec(present)[j] == present[i]@.push(0u16);
            let n = present[i]@;
            assert(n.push(0u16).len() == 2);
            assert(n.len() == 1);
            assert(n.push(0u16)[0] == 0x31u16);
            assert(n =~= seq![0x31u16]);
        }
    }
}

/// UTF-16 never needs more than two units per character.
proof fn lemma_utf16_len_bound(cs: Seq<char>)
    ensures
        utf16_of(cs).len() <= 2 * cs.len(),
    decreases cs.len(),
{
    if cs.len() > 0 {
        lemma_utf16_len_bound(cs.drop_last());
    }
}

/// One event fed to the snap-back check, in the order the check asks for it.
#[derive(Clone, Copy, PartialEq, Eq, Structural, Debug)]
pub enum EnforceEvent {
    /// The check begins.
    Start,
    /// Whether there is a foreground window.
    Foreground(bool),
    /// The id of the thread owning the foreground window (0 when unknown).
    Thread(u32),
    /// The layout that thread currently has.
    Layout(isize),
}

/// What the snap-back check needs next, or its conclusion.
#[derive(Clone, Copy, PartialEq, Eq, Structural, Debug)]
pub enum EnforceAction {
    /// Nothing more to do.
    Done,
    /// Find the foreground window.
    QueryForeground,
    /// Find the thread that owns it.
    QueryThread,
    /// Read that thread's keyboard layout.
    QueryLayout,
    /// Ask the foreground window to switch to this layout.
    SwitchTo(isize),
}

/// One step of the snap-back check against the target layout `target`
/// (0 when no layout is loaded).
pub open spec fn enforce_step_spec(target: isize, event: EnforceEvent) -> EnforceAction {
    match event {
        EnforceEvent::Start => if target == 0 {
            EnforceAction::Done
        } else {
            EnforceAction::QueryForeground
        },
        EnforceEvent::Foreground(present) => if present {
            EnforceAction::QueryThread
        } else {
            EnforceAction::Done
        },
        EnforceEvent::Thread(tid) => if tid == 0 {
            EnforceAction::Done
        } else {
            EnforceAction::QueryLayout
        },
        EnforceEvent::Layout(current) => if current != target {
            EnforceAction::SwitchTo(target)
        } else {
            EnforceAction::Done
        },
    }
}

/// Takes one step of the snap-back check.
pub fn enforce_step(target: isize, event: EnforceEvent) -> (action: EnforceAction)
    ensures
        action == enforce_step_spec(target, event),
{
    match event {
        EnforceEvent::Start => if target == 0 {
            EnforceAction::Done
        } else {
            EnforceAction::QueryForeground
        },
        EnforceEvent::Foreground(present) => if present {
            EnforceAction::QueryThread
        } else {
            EnforceAction::Done
        },
        EnforceEvent::Thread(tid) => if tid == 0 {
            EnforceAction::Done
        } else {
            EnforceAction::QueryLayout
        },
        EnforceEvent::Layout(current) => if current != target {
            EnforceAction::SwitchTo(target)
        } else {
            EnforceAction::Done
        },
    }
}

/// The conclusion of a whole snap-back check, each event given as asked for:
/// whether there is a foreground window, its thread, and that thread's layout.
pub open spec fn enforce_run(target: isize, present: bool, tid: u32, current: isize) -> EnforceAction {
    let a = enforce_step_spec(target, EnforceEvent::Start);
    if a != EnforceAction::QueryForeground {
        a
    } else {
        let b = enforce_step_spec(target, EnforceEvent::Foreground(present));
        if b != EnforceAction::QueryThread {
            b
        } else {
            let c = enforce_step_spec(target, EnforceEvent::Thread(tid));
            if c != EnforceAction::QueryLayout {
                c
            } else {
                enforce_step_spec(target, EnforceEvent::Layout(current))
            }
        }
    }
}

/// A snap-back check switches the foreground window exactly when a target
/// layout is loaded, there is a foreground window with a known thread, and
/// that thread has drifted to another layout; then it switches it to the
/// target. When the layout is already right it does nothing.
pub proof fn lemma_enforce_switches_only_on_drift(
    target: isize,
    present: bool,
    tid: u32,
    current: isize,
)
    ensures
        enforce_run(target, present, tid, current) == (if target != 0 && present && tid != 0
            && current != target {
            EnforceAction::SwitchTo(target)
        } else {
            EnforceAction::Done
        }),
        enforce_run(target, present, tid, target) == EnforceAction::Done,
{
}

/// One Win32 step of applying a mode, after its layout was loaded.
#[derive(Clone, Copy, PartialEq, Eq, Structural, Debug)]
pub enum ApplyStep {
    /// Make the target the default input language for new threads.
    SetDefaultInputLanguage,
    /// Activate the target layout in this thread.
    ActivateLayout,
    /// Ask every top-level window to switch to the target.
    BroadcastToWindows,
    /// Run the snap-back check on the foreground window.
    EnforceNow,
    /// Unload every other loaded layout.
    UnloadOthers,
    /// Write the single-entry preload list of the mode.
    PersistPreload,
    /// Redraw the tray badge and tooltip for the mode.
    RefreshTray,
}

/// The steps that follow loading the layout of a mode: with no layout loaded
/// (`target` 0) only the tray is refreshed.
pub open spec fn apply_steps_spec(target: isize) -> Seq<ApplyStep> {
    if target != 0 {
        seq![
            ApplyStep::SetDefaultInputLanguage,
            ApplyStep::ActivateLayout,
            ApplyStep::BroadcastToWindows,
            ApplyStep::EnforceNow,
            ApplyStep::UnloadOthers,
            ApplyStep::PersistPreload,
            ApplyStep::RefreshTray,
        ]
    } else {
        seq![ApplyStep::RefreshTray]
    }
}

/// The enforcer's state: the chosen mode and the handle of its loaded layout
/// (0 when none is loaded).
pub struct Enforcer {
    mode: Mode,
    target: isize,
}

impl View for Enforcer {
    type V = (Mode, isize);

    closed spec fn view(&self) -> (Mode, isize) {
        (self.mode, self.target)
    }
}

impl Enforcer {
    /// An enforcer for `mode` whose layout is not loaded yet.
    pub fn new(mode: Mode) -> (e: Self)
        ensures
            e@ == (mode, 0isize),
    {
        Enforcer { mode, target: 0 }
    }

    /// The chosen mode.
    pub fn mode(&self) -> (m: Mode)
        ensures
            m == self@.0,
    {
        self.mode
    }

    /// The handle of the enforced layout, 0 when none.
    pub fn target(&self) -> (t: isize)
        ensures
            t == self@.1,
    {
        self.target
    }

    /// Chooses `mode` and returns the KLID to load for it. The caller then
    /// remembers the mode in the registry, loads the KLID, and reports the
    /// handle it got to `layout_loaded`.
    pub fn select(&mut self, mode: Mode) -> (klid: &'static str)
        ensures
            final(self)@ == (mode, old(self)@.1),
            klid@ == klid_spec(mode),
    {
        self.mode = mode;
        klid_for(mode)
    }

    /// Records the handle of the newly loaded layout (0 when loading failed)
    /// and returns the steps that finish applying the mode.
    pub fn layout_loaded(&mut self, target: isize) -> (steps: Vec<ApplyStep>)
        ensures
            final(self)@ == (old(self)@.0, target),
            steps@ == apply_steps_spec(target),
    {
        self.target = target;
        if target != 0 {
            let steps = vec![
                ApplyStep::SetDefaultInputLanguage,
                ApplyStep::ActivateLayout,
                ApplyStep::BroadcastToWindows,
                ApplyStep::EnforceNow,
                ApplyStep::UnloadOthers,
                ApplyStep::PersistPreload,
                ApplyStep::RefreshTray,
            ];
            assert(steps@ =~= apply_steps_spec(target));
            steps
        } else {
            let steps = vec![ApplyStep::RefreshTray];
            assert(steps@ =~= apply_steps_spec(target));
            steps
        }
    }

    /// One step of the snap-back check against the enforced layout.
    pub fn enforce_step(&self, event: EnforceEvent) -> (action: EnforceAction)
        ensures
            action == enforce_step_spec(self@.1, event),
    {
        enforce_step(self.target, event)
    }
}

/// Applying a mode ends with the tray refreshed, and unloads the other
/// layouts only when the mode's own layout was loaded: a failed load never
/// leaves the session without a layout.
pub proof fn lemma_apply_steps(target: isize)
    ensures
        apply_steps_spec(target).contains(ApplyStep::UnloadOthers) <==> target != 0,
        apply_steps_spec(target).last() == ApplyStep::RefreshTray,
{
    if target != 0 {
        assert(apply_steps_spec(target)[4] == ApplyStep::UnloadOthers);
    } else {
        assert(apply_steps_spec(target)[0] != ApplyStep::UnloadOthers);
    }
}

} // verus!
