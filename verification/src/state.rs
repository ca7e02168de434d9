//! Versioned state with snapshot history and rollback.
//!
//! A `VersionedState` holds one mutable value with a monotonically increasing
//! version number and a bounded queue of snapshots. Every update first pushes
//! the pre-update value onto the history; when the history exceeds its cap the
//! oldest snapshot is evicted. Rollback pops the newest snapshot and restores
//! it.

use vstd::prelude::*;
use vstd::pervasive::cloned;

verus! {

/// Maximum number of snapshots kept in history.
pub const MAX_HISTORY: usize = 50;

/// The timestamp written into snapshots.
///
/// Wall-clock time is deliberately not consulted here: snapshots carry a
/// fixed placeholder stamp, so the whole structure is a pure function of its
/// inputs.
pub open spec fn placeholder_time() -> Seq<char> {
    "2025-01-01T00:00:00Z"@
}

/// A stand-in clock that stamps snapshots with [`placeholder_time`].
#[derive(Debug, Clone, Copy)]
pub struct Utc;

impl Utc {
    /// The current instant of the stand-in clock.
    pub fn now() -> (r: Utc) {
        Utc
    }

    /// Render the instant as an RFC 3339 string.
    pub fn to_rfc3339(&self) -> (r: String)
        ensures
            r@ == placeholder_time(),
    {
        String::from_str("2025-01-01T00:00:00Z")
    }
}

/// A captured value together with the version it had and when it was taken.
#[derive(Debug, Clone)]
pub struct Snapshot<T> {
    /// The state at this version.
    pub state: T,
    /// Version number at capture time.
    pub version: u64,
    /// When this snapshot was taken (RFC 3339).
    pub timestamp: String,
}

/// Whether `s` is the snapshot that capturing `state` at `version` produces.
pub open spec fn is_snapshot_of<T>(s: Snapshot<T>, state: T, version: u64) -> bool {
    &&& s.state == state
    &&& s.version == version
    &&& s.timestamp@ == placeholder_time()
}

/// A single mutable value with version numbering and bounded undo history.
#[derive(Debug, Clone)]
pub struct VersionedState<T> {
    current: T,
    version: u64,
    history: Vec<Snapshot<T>>,
}

impl<T> VersionedState<T> {
    /// Current value.
    pub closed spec fn spec_current(&self) -> T {
        self.current
    }

    /// Current version number.
    pub closed spec fn spec_version(&self) -> u64 {
        self.version
    }

    /// The snapshot history, oldest first.
    pub closed spec fn spec_history(&self) -> Seq<Snapshot<T>> {
        self.history@
    }
}

/// How one update step changes a versioned state: the pre-update value is
/// snapshotted (evicting the oldest snapshot once the history is full), the
/// new value is installed, and the version increments by exactly one.
pub open spec fn updated<T>(
    pre: VersionedState<T>,
    post: VersionedState<T>,
    new_state: T,
) -> bool {
    let kept = if pre.spec_history().len() < MAX_HISTORY {
        pre.spec_history()
    } else {
        pre.spec_history().drop_first()
    };
    &&& post.spec_history().len() == kept.len() + 1
    &&& (forall|i: int| 0 <= i < kept.len() ==> #[trigger] post.spec_history()[i] == kept[i])
    &&& is_snapshot_of(post.spec_history().last(), pre.spec_current(), pre.spec_version())
    &&& post.spec_current() == new_state
    &&& post.spec_version() == pre.spec_version() + 1
}

/// How a rollback step changes a versioned state: with no history it fails
/// and changes nothing; otherwise the newest snapshot is popped and restored.
pub open spec fn rolled_back<T>(
    pre: VersionedState<T>,
    post: VersionedState<T>,
    r: bool,
) -> bool {
    if pre.spec_history().len() == 0 {
        &&& r == false
        &&& post.spec_current() == pre.spec_current()
        &&& post.spec_version() == pre.spec_version()
        &&& post.spec_history() == pre.spec_history()
    } else {
        &&& r == true
        &&& post.spec_current() == pre.spec_history().last().state
        &&& post.spec_version() == pre.spec_history().last().version
        &&& post.spec_history() == pre.spec_history().drop_last()
    }
}

impl<T> VersionedState<T> {
    /// Create new versioned state holding `initial`, at version 0 with empty
    /// history.
    pub fn new(initial: T) -> (r: Self)
        ensures
            r.spec_current() == initial,
            r.spec_version() == 0,
            r.spec_history().len() == 0,
    {
        VersionedState { current: initial, version: 0, history: Vec::new() }
    }

    /// Current value, without side effect.
    pub fn get(&self) -> (r: &T)
        ensures
            *r == self.spec_current(),
    {
        &self.current
    }

    /// Current version number.
    pub fn version(&self) -> (r: u64)
        ensures
            r == self.spec_version(),
    {
        self.version
    }

    /// Install `new_state`, snapshotting the pre-update value first.
    pub fn update(&mut self, new_state: T)
        requires
            old(self).spec_version() < u64::MAX,
        ensures
            updated(*old(self), *final(self), new_state),
    {
        let mut taken = new_state;
        core::mem::swap(&mut self.current, &mut taken);
        let snap = Snapshot { state: taken, version: self.version, timestamp: Utc::now().to_rfc3339() };
        self.history.push(snap);
        if self.history.len() > MAX_HISTORY {
            self.history.remove(0);
            proof {
                assert(self.history@ =~= old(self).spec_history().drop_first().push(snap));
            }
        }
        self.version = self.version + 1;
    }

    /// Install `new_value`, snapshotting the pre-update value first. Same
    /// step as [`Self::update`], under the name used when the caller has
    /// the new value at hand rather than a mutation.
    pub fn set(&mut self, new_value: T)
        requires
            old(self).spec_version() < u64::MAX,
        ensures
            updated(*old(self), *final(self), new_value),
    {
        self.update(new_value);
    }

    /// Pop the most recent snapshot and restore it. Returns `true` on
    /// success, `false` (with no change) when the history is empty.
    pub fn rollback(&mut self) -> (r: bool)
        ensures
            rolled_back(*old(self), *final(self), r),
    {
        match self.history.pop() {
            Some(snap) => {
                self.current = snap.state;
                self.version = snap.version;
                true
            },
            None => false,
        }
    }

    /// Unconditionally restore value and version from `snapshot`, leaving
    /// the history untouched.
    pub fn restore(&mut self, snapshot: Snapshot<T>)
        ensures
            final(self).spec_current() == snapshot.state,
            final(self).spec_version() == snapshot.version,
            final(self).spec_history() == old(self).spec_history(),
    {
        self.current = snapshot.state;
        self.version = snapshot.version;
    }

    /// The snapshot history, oldest first.
    pub fn history(&self) -> (r: &Vec<Snapshot<T>>)
        ensures
            r@ == self.spec_history(),
    {
        &self.history
    }

    /// Drop all snapshots, leaving value and version unchanged.
    pub fn clear_history(&mut self)
        ensures
            final(self).spec_current() == old(self).spec_current(),
            final(self).spec_version() == old(self).spec_version(),
            final(self).spec_history().len() == 0,
    {
        self.history.clear();
    }
}

impl<T: Clone> VersionedState<T> {
    /// Capture the current value and version as a snapshot.
    pub fn snapshot(&self) -> (r: Snapshot<T>)
        ensures
            cloned::<T>(self.spec_current(), r.state),
            r.version == self.spec_version(),
            r.timestamp@ == placeholder_time(),
    {
        Snapshot {
            state: self.current.clone(),
            version: self.version,
            timestamp: Utc::now().to_rfc3339(),
        }
    }
}

/// The value a chain of updates holds after step `i`: the initial value for
/// `i == 0`, otherwise the value installed by update `i`.
pub open spec fn chain_value<T>(initial: T, values: Seq<T>, i: int) -> T {
    if i == 0 {
        initial
    } else {
        values[i - 1]
    }
}

/// Index of the first update whose pre-update value is still retained in the
/// history after `k` updates.
pub open spec fn chain_base(k: int) -> int {
    if k <= MAX_HISTORY {
        0
    } else {
        k - MAX_HISTORY
    }
}

/// Law: after `k` updates from a fresh state, the version is `k` and the
/// history holds `min(k, MAX_HISTORY)` snapshots; entry `j` of the history is
/// the snapshot of the value before update `base + j + 1`, where
/// `base = max(k - MAX_HISTORY, 0)`. In particular, for `k <= MAX_HISTORY`
/// the history holds all `k` pre-update values, and for larger `k` the oldest
/// retained snapshot is the one pushed by update `k - MAX_HISTORY + 1`.
pub proof fn lemma_update_chain<T>(states: Seq<VersionedState<T>>, initial: T, values: Seq<T>)
    requires
        states.len() == values.len() + 1,
        states[0].spec_current() == initial,
        states[0].spec_version() == 0,
        states[0].spec_history().len() == 0,
        forall|i: int| 0 <= i < values.len() ==> updated(states[i], #[trigger] states[i + 1], values[i]),
    ensures
        states.last().spec_current() == chain_value(initial, values, values.len() as int),
        states.last().spec_version() == values.len(),
        states.last().spec_history().len() == if values.len() <= MAX_HISTORY {
            values.len() as int
        } else {
            MAX_HISTORY as int
        },
        forall|j: int|
            0 <= j < states.last().spec_history().len() ==> is_snapshot_of(
                #[trigger] states.last().spec_history()[j],
                chain_value(initial, values, chain_base(values.len() as int) + j),
                (chain_base(values.len() as int) + j) as u64,
            ),
    decreases values.len(),
{
    if values.len() == 0 {
    } else {
        let k = values.len() as int;
        let sub_states = states.drop_last();
        let sub_values = values.drop_last();
        assert(sub_states[0] == states[0]);
        assert forall|i: int| 0 <= i < sub_values.len() implies updated(
            sub_states[i],
            #[trigger] sub_states[i + 1],
            sub_values[i],
        ) by {
            assert(sub_states[i] == states[i]);
            assert(sub_states[i + 1] == states[i + 1]);
            assert(sub_values[i] == values[i]);
        }
        lemma_update_chain(sub_states, initial, sub_values);
        let prev = states[k - 1];
        let last = states[k];
        assert(sub_states.last() == prev);
        assert(updated(prev, last, values[k - 1]));
        assert(chain_value(initial, sub_values, k - 1) == chain_value(initial, values, k - 1));
        // `prev` holds the chain value and version k - 1; `updated` then pins
        // every history entry of `last`.
        let h_prev = prev.spec_history();
        let h_last = last.spec_history();
        if k - 1 < MAX_HISTORY {
            assert(h_last.len() == h_prev.len() + 1);
            assert forall|j: int| 0 <= j < h_last.len() implies is_snapshot_of(
                #[trigger] h_last[j],
                chain_value(initial, values, chain_base(k) + j),
                (chain_base(k) + j) as u64,
            ) by {
                if j < h_prev.len() {
                    assert(h_last[j] == h_prev[j]);
                    assert(is_snapshot_of(
                        sub_states.last().spec_history()[j],
                        chain_value(initial, sub_values, j),
                        j as u64,
                    ));
                    assert(chain_value(initial, sub_values, j) == chain_value(initial, values, j));
                } else {
                    assert(h_last[j] == h_last.last());
                }
            }
        } else {
            let kept = h_prev.drop_first();
            assert(h_last.len() == MAX_HISTORY);
            assert forall|j: int| 0 <= j < h_last.len() implies is_snapshot_of(
                #[trigger] h_last[j],
                chain_value(initial, values, chain_base(k) + j),
                (chain_base(k) + j) as u64,
            ) by {
                if j < kept.len() {
                    assert(h_last[j] == kept[j]);
                    assert(kept[j] == h_prev[j + 1]);
                    assert(is_snapshot_of(
                        sub_states.last().spec_history()[j + 1],
                        chain_value(initial, sub_values, chain_base(k - 1) + j + 1),
                        (chain_base(k - 1) + j + 1) as u64,
                    ));
                    assert(is_snapshot_of(
                        h_prev[j + 1],
                        chain_value(initial, sub_values, chain_base(k - 1) + j + 1),
                        (chain_base(k - 1) + j + 1) as u64,
                    ));
                    assert(chain_base(k - 1) + j + 1 == chain_base(k) + j);
                    assert(chain_value(initial, sub_values, chain_base(k) + j) == chain_value(
                        initial,
                        values,
                        chain_base(k) + j,
                    ));
                } else {
                    assert(h_last[j] == h_last.last());
                    assert(chain_base(k) + j == k - 1);
                }
            }
        }
    }
}

/// Law: rollback after an update restores the pre-update value and version,
/// whatever the history held before.
pub proof fn lemma_update_then_rollback<T>(
    s0: VersionedState<T>,
    s1: VersionedState<T>,
    s2: VersionedState<T>,
    x: T,
    r: bool,
)
    requires
        updated(s0, s1, x),
        rolled_back(s1, s2, r),
    ensures
        r == true,
        s2.spec_current() == s0.spec_current(),
        s2.spec_version() == s0.spec_version(),
{
}

/// Law: rollback on a state with no history reports failure and changes
/// nothing; in particular a fresh state keeps its value and version 0.
pub proof fn lemma_rollback_on_fresh<T>(
    s0: VersionedState<T>,
    s1: VersionedState<T>,
    initial: T,
    r: bool,
)
    requires
        s0.spec_current() == initial,
        s0.spec_version() == 0,
        s0.spec_history().len() == 0,
        rolled_back(s0, s1, r),
    ensures
        r == false,
        s1.spec_current() == initial,
        s1.spec_version() == 0,
        s1.spec_history().len() == 0,
{
}

} // verus!
