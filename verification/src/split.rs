//! The orientation store: a mapping from window identifiers to split
//! orientation, together with the identifier of the current window.
//!
//! The window-manager listener is the sole writer of this state and the
//! renderer its sole reader; both go through the operations here, which
//! treat the mapping and the current window as one unit of state, so a
//! caller that guards a `SplitState` with a single lock observes the pair
//! atomically.

use vstd::prelude::*;
use std::collections::HashMap;
use crate::strutil::str_eq;
use crate::widget::{ClickEvent, State, TextWidget};

verus! {

broadcast use vstd::std_specs::hash::group_hash_axioms;

/// The split direction of a container.
#[derive(Clone, Copy, Debug, PartialEq, Eq, Structural)]
pub enum Orientation {
    Horizontal,
    Vertical,
}

/// The orientation stored for `w`, or `Horizontal` when no entry exists.
pub open spec fn spec_get(m: Map<i64, Orientation>, w: i64) -> Orientation {
    if m.contains_key(w) {
        m[w]
    } else {
        Orientation::Horizontal
    }
}

/// Shared state of the indicator: window orientations plus the most
/// recently touched window.
pub struct SplitState {
    map: HashMap<i64, Orientation>,
    current: i64,
}

impl SplitState {
    /// The mapping from window identifier to orientation.
    pub closed spec fn entries(self) -> Map<i64, Orientation> {
        self.map@
    }

    /// The identifier of the most recently touched window.
    pub closed spec fn current_window(self) -> i64 {
        self.current
    }

    /// An empty store; no window has been seen yet.
    pub fn new() -> (s: Self)
        ensures
            s.entries() == Map::<i64, Orientation>::empty(),
            s.current_window() == 0i64,
    {
        SplitState { map: HashMap::new(), current: 0 }
    }

    /// The stored orientation of `w`, defaulting to `Horizontal`;
    /// never mutates the store.
    pub fn get(&self, w: i64) -> (r: Orientation)
        ensures
            r == spec_get(self.entries(), w),
    {
        match self.map.get(&w) {
            Some(o) => *o,
            None => Orientation::Horizontal,
        }
    }

    /// Inserts or overwrites the entry for `w`.
    pub fn set(&mut self, w: i64, o: Orientation)
        ensures
            final(self).entries() == old(self).entries().insert(w, o),
            final(self).current_window() == old(self).current_window(),
    {
        self.map.insert(w, o);
    }

    /// Whether the store holds an entry for `w`; never mutates the store.
    pub fn contains(&self, w: i64) -> (r: bool)
        ensures
            r == self.entries().contains_key(w),
    {
        self.map.contains_key(&w)
    }

    /// Deletes the entry for `w` if present; a no-op otherwise.
    pub fn remove(&mut self, w: i64)
        ensures
            final(self).entries() == old(self).entries().remove(w),
            final(self).current_window() == old(self).current_window(),
    {
        self.map.remove(&w);
    }

    /// The current window and its orientation, as one snapshot.
    /// This is the only read path the renderer uses.
    pub fn read_current(&self) -> (r: (i64, Orientation))
        ensures
            r.0 == self.current_window(),
            r.1 == spec_get(self.entries(), self.current_window()),
    {
        (self.current, self.get(self.current))
    }

    /// Applies a key-binding notification carrying the raw command `cmd`.
    /// Returns whether a wake signal is owed to the scheduler.
    pub fn process_binding(&mut self, cmd: &str) -> (wake: bool)
        ensures
            ({
                let (m, w) = binding_step(old(self).entries(), old(self).current_window(), cmd@);
                final(self).entries() == m && wake == w
            }),
            final(self).current_window() == old(self).current_window(),
    {
        if str_eq(cmd, "split h") {
            self.set(self.current, Orientation::Horizontal);
            true
        } else if str_eq(cmd, "split v") {
            self.set(self.current, Orientation::Vertical);
            true
        } else {
            false
        }
    }

    /// Applies a window-lifecycle notification of kind `change` for window
    /// `id`. Returns whether a wake signal is owed to the scheduler.
    pub fn process_window(&mut self, change: WindowChange, id: i64) -> (wake: bool)
        ensures
            ({
                let (m, cur, w) = window_step(
                    old(self).entries(),
                    old(self).current_window(),
                    change,
                    id,
                );
                final(self).entries() == m && final(self).current_window() == cur && wake == w
            }),
    {
        match change {
            WindowChange::New => {
                let inherited = self.get(self.current);
                self.set(id, inherited);
                self.current = id;
                true
            },
            WindowChange::Close => {
                self.current = id;
                self.remove(id);
                true
            },
            WindowChange::Focus => {
                self.current = id;
                if !self.map.contains_key(&id) {
                    self.set(id, Orientation::Horizontal);
                }
                true
            },
            WindowChange::Other => false,
        }
    }
}

/// The kind of a window-lifecycle notification; kinds this component does
/// not react to are folded into `Other`.
#[derive(Clone, Copy, Debug, PartialEq, Eq, Structural)]
pub enum WindowChange {
    New,
    Close,
    Focus,
    Other,
}

/// What processing a binding notification does to the store: a recognized
/// command overwrites the current window's orientation and owes a wake;
/// any other text leaves the store untouched and owes none. The current
/// window never changes here.
pub open spec fn binding_step(m: Map<i64, Orientation>, cur: i64, cmd: Seq<char>) -> (Map<
    i64,
    Orientation,
>, bool) {
    if cmd == "split h"@ {
        (m.insert(cur, Orientation::Horizontal), true)
    } else if cmd == "split v"@ {
        (m.insert(cur, Orientation::Vertical), true)
    } else {
        (m, false)
    }
}

/// What processing a window notification does to the store and the current
/// window, and whether a wake is owed: `New` inherits the current window's
/// orientation, `Close` evicts the entry, `Focus` lazily inserts the
/// default, and every recognized kind adopts `id` as the current window.
pub open spec fn window_step(
    m: Map<i64, Orientation>,
    cur: i64,
    change: WindowChange,
    id: i64,
) -> (Map<i64, Orientation>, i64, bool) {
    match change {
        WindowChange::New => (m.insert(id, spec_get(m, cur)), id, true),
        WindowChange::Close => (m.remove(id), id, true),
        WindowChange::Focus => (
            if m.contains_key(id) {
                m
            } else {
                m.insert(id, Orientation::Horizontal)
            },
            id,
            true,
        ),
        WindowChange::Other => (m, cur, false),
    }
}

/// A window without an entry reads as `Horizontal`; in particular a
/// window that no processed notification has ever referenced keeps no
/// entry, so querying it yields the default.
pub proof fn lemma_absent_reads_default(m: Map<i64, Orientation>, w: i64)
    requires
        !m.contains_key(w),
    ensures
        spec_get(m, w) == Orientation::Horizontal,
{
}

/// Processing a window notification that is not about `w` never creates
/// an entry for `w`: a never-referenced window still reads as default.
pub proof fn lemma_window_step_preserves_unreferenced(
    m: Map<i64, Orientation>,
    cur: i64,
    change: WindowChange,
    id: i64,
    w: i64,
)
    requires
        !m.contains_key(w),
        id != w,
    ensures
        !window_step(m, cur, change, id).0.contains_key(w),
        spec_get(window_step(m, cur, change, id).0, w) == Orientation::Horizontal,
{
}

/// Processing a binding notification while `w` is not the current window
/// never creates an entry for `w`: a never-referenced window still reads
/// as default.
pub proof fn lemma_binding_step_preserves_unreferenced(
    m: Map<i64, Orientation>,
    cur: i64,
    cmd: Seq<char>,
    w: i64,
)
    requires
        !m.contains_key(w),
        cur != w,
    ensures
        !binding_step(m, cur, cmd).0.contains_key(w),
        spec_get(binding_step(m, cur, cmd).0, w) == Orientation::Horizontal,
{
}

/// Inheritance: a `New(c)` notification gives `c` the orientation the
/// current window had at that moment and makes `c` the current window.
pub proof fn lemma_new_inherits(m: Map<i64, Orientation>, cur: i64, c: i64)
    ensures
        window_step(m, cur, WindowChange::New, c).1 == c,
        spec_get(window_step(m, cur, WindowChange::New, c).0, c) == spec_get(m, cur),
{
}

/// Eviction: after `Close(w)` the store holds no entry for `w`, so a
/// later query yields the default rather than the pre-close value.
pub proof fn lemma_close_evicts(m: Map<i64, Orientation>, cur: i64, w: i64)
    ensures
        !window_step(m, cur, WindowChange::Close, w).0.contains_key(w),
        spec_get(window_step(m, cur, WindowChange::Close, w).0, w) == Orientation::Horizontal,
{
}

/// Binding persistence: `"split v"` pins the current window's entry to
/// `Vertical`, and `"split h"` to `Horizontal`. Reads (`get`,
/// `read_current`, rendering) take the store by shared reference, so the
/// value stands until the next mutating notification for that window.
pub proof fn lemma_binding_sets_current(m: Map<i64, Orientation>, cur: i64)
    ensures
        spec_get(binding_step(m, cur, "split v"@).0, cur) == Orientation::Vertical,
        spec_get(binding_step(m, cur, "split h"@).0, cur) == Orientation::Horizontal,
{
    assert("split v"@ != "split h"@) by {
        reveal_strlit("split v");
        reveal_strlit("split h");
        assert("split v"@[6] == 'v' && "split h"@[6] == 'h');
    }
}

/// Wake causality for bindings: a wake is owed exactly for the two
/// recognized commands, and a notification that owes no wake leaves the
/// store untouched.
pub proof fn lemma_binding_wake_iff_accepted(m: Map<i64, Orientation>, cur: i64, cmd: Seq<char>)
    ensures
        binding_step(m, cur, cmd).1 <==> (cmd == "split h"@ || cmd == "split v"@),
        !binding_step(m, cur, cmd).1 ==> binding_step(m, cur, cmd).0 == m,
{
}

/// Configuration of the split indicator; it has no options.
pub struct SplitStatusConfig {}

/// The artifact the renderer owes for orientation `o`: the icon names the
/// split direction, and a vertical split is highlighted as `Info` where a
/// horizontal one reads as `Good`.
pub open spec fn render_artifact(o: Orientation) -> (Seq<char>, State) {
    match o {
        Orientation::Vertical => ("vertical"@, State::Info),
        Orientation::Horizontal => ("horizontal"@, State::Good),
    }
}

/// The split-orientation indicator block: its display artifact and its
/// process-unique identifier. The listener-owned `SplitState` it renders
/// from is handed to `update` as one atomic snapshot by the caller, which
/// is expected to take the snapshot via `SplitState::read_current` under
/// a single lock guarding the whole state.
pub struct SplitStatus {
    text: TextWidget,
    id: String,
}

impl SplitStatus {
    /// The identifier of this instance.
    pub closed spec fn spec_id(self) -> Seq<char> {
        self.id@
    }

    /// The current display artifact.
    pub closed spec fn artifact(self) -> (Seq<char>, State) {
        self.text@
    }

    /// Builds a fresh indicator with a fresh identifier and an empty,
    /// idle artifact.
    pub fn new(_block_config: SplitStatusConfig) -> (s: Self)
        ensures
            s.spec_id().len() == 32,
            s.artifact() == (Seq::<char>::empty(), State::Idle),
    {
        SplitStatus { text: TextWidget::new(), id: crate::ids::new_block_id() }
    }

    /// One poll cycle: renders the snapshot `(current window, orientation)`
    /// into the artifact and asks for no timer-based re-poll — every future
    /// update arrives via a wake signal from the listener. The artifact is
    /// a function of the snapshot alone, so repeated polls over an
    /// unchanged store render byte-identical artifacts.
    pub fn update(&mut self, snapshot: (i64, Orientation)) -> (r: Option<u64>)
        ensures
            r is None,
            final(self).artifact() == render_artifact(snapshot.1),
            final(self).spec_id() == old(self).spec_id(),
    {
        if let Orientation::Vertical = snapshot.1 {
            self.text.set_icon("vertical");
            self.text.set_state(State::Info);
        } else {
            self.text.set_icon("horizontal");
            self.text.set_state(State::Good);
        }
        None
    }

    /// The artifacts this block displays: always exactly one.
    pub fn view(&self) -> (r: Vec<&TextWidget>)
        ensures
            r@.len() == 1,
            r@[0]@ == self.artifact(),
    {
        let mut v: Vec<&TextWidget> = Vec::new();
        v.push(&self.text);
        v
    }

    /// The identifier wake signals and click events are correlated by.
    pub fn id(&self) -> (r: &str)
        ensures
            r@ == self.spec_id(),
    {
        self.id.as_str()
    }

    /// Present for interface uniformity; this block has no interactive
    /// surface, so a click changes nothing.
    pub fn click(&mut self, _event: &ClickEvent)
        ensures
            final(self).artifact() == old(self).artifact(),
            final(self).spec_id() == old(self).spec_id(),
    {
    }
}

/// Idempotence of the renderer: any two poll cycles that observe the same
/// snapshot leave byte-identical artifacts, whatever the blocks held
/// before.
pub proof fn lemma_update_idempotent(a: SplitStatus, b: SplitStatus, snap: (i64, Orientation))
    requires
        a.artifact() == render_artifact(snap.1),
        b.artifact() == render_artifact(snap.1),
    ensures
        a.artifact() == b.artifact(),
{
}

/// Wake causality for window notifications: a wake is owed exactly for
/// the recognized kinds, and an ignored kind changes nothing.
pub proof fn lemma_window_wake_iff_accepted(
    m: Map<i64, Orientation>,
    cur: i64,
    change: WindowChange,
    id: i64,
)
    ensures
        window_step(m, cur, change, id).2 <==> change != WindowChange::Other,
        !window_step(m, cur, change, id).2 ==> window_step(m, cur, change, id) == (m, cur, false),
{
}

} // verus!
