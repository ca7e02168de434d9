//! Ordered, append-only history of component versions with rollback.
//!
//! Each entry records a compiled artifact together with a snapshot of the
//! external application state at the moment the version became current.
//! Entries are never mutated or deleted; rollback is a jump of the current
//! pointer to any valid index, which also restores that entry's state
//! snapshot as the cached current state, so the next version carries the
//! rolled-back-to state forward.
//!
//! The external state is an opaque serializable value supplied by the
//! presentation layer; the history only stores and hands back copies of it.

use vstd::prelude::*;

use crate::component::get_timestamp;
use crate::component::is_timestamp_string;

verus! {

#[verifier::external_type_specification]
#[verifier::external_body]
pub struct ExValue(serde_json::Value);

/// Relies on `serde_json::Value`'s derived `Clone`: cloning yields a value
/// equal to the original.
pub assume_specification[ <serde_json::Value as Clone>::clone ](v: &serde_json::Value) -> (res:
    serde_json::Value)
    ensures
        res == *v,
;

/// Copy an optional state value.
fn clone_state(s: &Option<serde_json::Value>) -> (r: Option<serde_json::Value>)
    ensures
        r == *s,
{
    match s {
        Some(v) => Some(v.clone()),
        None => None,
    }
}

/// One immutable record in the version history.
#[derive(Debug)]
pub struct ComponentVersion {
    /// Sequence id: the entry's position in the history, never reused.
    pub id: usize,
    /// Human-readable name of the version.
    pub name: String,
    /// Description of the version.
    pub description: String,
    /// The compiled artifact bytes.
    pub wasm_bytes: Vec<u8>,
    /// When the version was created.
    pub created_at: String,
    /// External state captured when this version became current, if any.
    pub state_snapshot: Option<serde_json::Value>,
    /// Whether the version was generated rather than hand-authored.
    pub ai_generated: bool,
}

/// One row of the history listing.
#[derive(Debug)]
pub struct VersionSummary {
    /// Sequence id of the summarised entry.
    pub id: usize,
    /// Name of the version.
    pub name: String,
    /// Description of the version.
    pub description: String,
    /// When the version was created.
    pub created_at: String,
    /// Whether this entry is the current one.
    pub is_current: bool,
    /// Whether the version was generated.
    pub ai_generated: bool,
}

/// Ordered history of component versions with a current pointer and the
/// cached external state used to seed the next entry's snapshot.
#[derive(Debug)]
pub struct VersionHistory {
    versions: Vec<ComponentVersion>,
    current_index: usize,
    current_state: Option<serde_json::Value>,
}

impl VersionHistory {
    /// The recorded versions, in creation order.
    pub closed spec fn spec_versions(&self) -> Seq<ComponentVersion> {
        self.versions@
    }

    /// Index of the current version.
    pub closed spec fn spec_current_index(&self) -> usize {
        self.current_index
    }

    /// The cached external state.
    pub closed spec fn spec_current_state(&self) -> Option<serde_json::Value> {
        self.current_state
    }

    /// Well-formedness: entry `i` carries sequence id `i`, and the current
    /// pointer refers to a valid entry once one exists. Constructors
    /// establish it and every method preserves it.
    pub open spec fn wf(&self) -> bool {
        &&& (forall|i: int|
            0 <= i < self.spec_versions().len() ==> (#[trigger] self.spec_versions()[i]).id == i)
        &&& if self.spec_versions().len() == 0 {
            self.spec_current_index() == 0
        } else {
            self.spec_current_index() < self.spec_versions().len()
        }
    }
}

/// How `add_version` changes a history: a new entry is appended at the next
/// sequence id, capturing the cached state as its snapshot; the new entry
/// becomes current; nothing else changes.
pub open spec fn version_added(
    pre: VersionHistory,
    post: VersionHistory,
    name: String,
    description: String,
    wasm_bytes: Seq<u8>,
    ai_generated: bool,
    id: usize,
) -> bool {
    let entry = post.spec_versions().last();
    &&& id == pre.spec_versions().len()
    &&& post.spec_versions().len() == pre.spec_versions().len() + 1
    &&& (forall|i: int|
        0 <= i < pre.spec_versions().len() ==> #[trigger] post.spec_versions()[i]
            == pre.spec_versions()[i])
    &&& entry.id == id
    &&& entry.name == name
    &&& entry.description == description
    &&& entry.wasm_bytes@ == wasm_bytes
    &&& is_timestamp_string(entry.created_at@)
    &&& entry.state_snapshot == pre.spec_current_state()
    &&& entry.ai_generated == ai_generated
    &&& post.spec_current_index() == id
    &&& post.spec_current_state() == pre.spec_current_state()
}

/// How `rollback_to` changes a history: a valid id becomes the current
/// index and its stored snapshot replaces the cached state; an out-of-range
/// id changes nothing.
pub open spec fn history_rolled_back(
    pre: VersionHistory,
    post: VersionHistory,
    version_id: usize,
    succeeded: bool,
) -> bool {
    &&& post.spec_versions() == pre.spec_versions()
    &&& if version_id < pre.spec_versions().len() {
        &&& succeeded
        &&& post.spec_current_index() == version_id
        &&& post.spec_current_state() == pre.spec_versions()[version_id as int].state_snapshot
    } else {
        &&& !succeeded
        &&& post.spec_current_index() == pre.spec_current_index()
        &&& post.spec_current_state() == pre.spec_current_state()
    }
}

impl VersionHistory {
    /// Create an empty history with no cached state.
    pub fn new() -> (r: Self)
        ensures
            r.wf(),
            r.spec_versions().len() == 0,
            r.spec_current_index() == 0,
            r.spec_current_state() is None,
    {
        VersionHistory { versions: Vec::new(), current_index: 0, current_state: None }
    }

    /// Append a new version at the next sequence id, capturing the cached
    /// external state as its snapshot, and make it current. Returns the new
    /// entry's id.
    pub fn add_version(
        &mut self,
        name: String,
        description: String,
        wasm_bytes: Vec<u8>,
        ai_generated: bool,
    ) -> (id: usize)
        requires
            old(self).wf(),
            old(self).spec_versions().len() < usize::MAX,
        ensures
            final(self).wf(),
            version_added(
                *old(self),
                *final(self),
                name,
                description,
                wasm_bytes@,
                ai_generated,
                id,
            ),
    {
        let id = self.versions.len();
        let entry = ComponentVersion {
            id,
            name,
            description,
            wasm_bytes,
            created_at: get_timestamp(),
            state_snapshot: clone_state(&self.current_state),
            ai_generated,
        };
        self.versions.push(entry);
        self.current_index = id;
        id
    }

    /// The current entry, or `None` while the history is empty.
    pub fn get_current(&self) -> (r: Option<&ComponentVersion>)
        requires
            self.wf(),
        ensures
            match r {
                Some(v) => self.spec_versions().len() > 0 && *v == self.spec_versions()[self.spec_current_index() as int],
                None => self.spec_versions().len() == 0,
            },
    {
        if self.current_index < self.versions.len() {
            Some(&self.versions[self.current_index])
        } else {
            None
        }
    }

    /// Jump the current pointer to `version_id` and restore that entry's
    /// state snapshot as the cached state. Out-of-range ids return `None`
    /// and change nothing. Rollback by absolute index supports both undo and
    /// redo.
    pub fn rollback_to(&mut self, version_id: usize) -> (r: Option<&ComponentVersion>)
        requires
            old(self).wf(),
        ensures
            final(self).wf(),
            history_rolled_back(*old(self), *final(self), version_id, r is Some),
            match r {
                Some(v) => *v == old(self).spec_versions()[version_id as int] && v.id
                    == version_id,
                None => true,
            },
    {
        if version_id < self.versions.len() {
            self.current_index = version_id;
            self.current_state = clone_state(&self.versions[version_id].state_snapshot);
            Some(&self.versions[version_id])
        } else {
            None
        }
    }

    /// Overwrite the cached external state. Entries are untouched; the next
    /// `add_version` will snapshot this value.
    pub fn update_state(&mut self, state: serde_json::Value)
        requires
            old(self).wf(),
        ensures
            final(self).wf(),
            final(self).spec_current_state() == Some(state),
            final(self).spec_versions() == old(self).spec_versions(),
            final(self).spec_current_index() == old(self).spec_current_index(),
    {
        self.current_state = Some(state);
    }

    /// The cached external state, if any.
    pub fn current_state(&self) -> (r: &Option<serde_json::Value>)
        ensures
            *r == self.spec_current_state(),
    {
        &self.current_state
    }

    /// Summaries of all versions, in creation order (oldest first), with
    /// `is_current` set exactly on the current entry.
    pub fn get_history(&self) -> (r: Vec<VersionSummary>)
        requires
            self.wf(),
        ensures
            r@.len() == self.spec_versions().len(),
            forall|i: int|
                0 <= i < r@.len() ==> {
                    let v = self.spec_versions()[i];
                    let s = #[trigger] r@[i];
                    &&& s.id == v.id
                    &&& s.name == v.name
                    &&& s.description == v.description
                    &&& s.created_at == v.created_at
                    &&& s.is_current == (v.id == self.spec_current_index())
                    &&& s.ai_generated == v.ai_generated
                },
    {
        let n = self.versions.len();
        let mut out: Vec<VersionSummary> = Vec::new();
        let mut i: usize = 0;
        while i < n
            invariant
                i <= n,
                n == self.spec_versions().len(),
                out@.len() == i,
                forall|j: int|
                    0 <= j < i ==> {
                        let v = self.spec_versions()[j];
                        let s = #[trigger] out@[j];
                        &&& s.id == v.id
                        &&& s.name == v.name
                        &&& s.description == v.description
                        &&& s.created_at == v.created_at
                        &&& s.is_current == (v.id == self.spec_current_index())
                        &&& s.ai_generated == v.ai_generated
                    },
            decreases n - i,
        {
            let v = &self.versions[i];
            let summary = VersionSummary {
                id: v.id,
                name: v.name.clone(),
                description: v.description.clone(),
                created_at: v.created_at.clone(),
                is_current: v.id == self.current_index,
                ai_generated: v.ai_generated,
            };
            out.push(summary);
            i = i + 1;
        }
        out
    }
}

/// Law: a version added right after a rollback carries the rolled-back-to
/// entry's state snapshot, not the state cached before the rollback.
pub proof fn lemma_rollback_seeds_next_version(
    h0: VersionHistory,
    h1: VersionHistory,
    h2: VersionHistory,
    version_id: usize,
    name: String,
    description: String,
    wasm_bytes: Seq<u8>,
    ai_generated: bool,
    new_id: usize,
)
    requires
        version_id < h0.spec_versions().len(),
        history_rolled_back(h0, h1, version_id, true),
        version_added(h1, h2, name, description, wasm_bytes, ai_generated, new_id),
    ensures
        h2.spec_versions().last().state_snapshot == h0.spec_versions()[version_id as int].state_snapshot,
        new_id == h0.spec_versions().len(),
{
}

} // verus!
