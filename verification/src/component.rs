//! Component instances: identity, load, and hot-reload.
//!
//! A component wraps a compiled artifact. Its identity is derived
//! deterministically from the artifact bytes at first load and never changes
//! afterwards; reloading replaces the bytes and increments the version while
//! identity and permission grant are preserved.

use vstd::prelude::*;

use crate::errors::{MorpheusError, MorpheusResult};
use crate::permissions::Permissions;
use crate::text::{append_dec, append_hex, dec_rep, hex_rep};
use crate::{simple_hash, spec_simple_hash};

verus! {

/// Stable identifier of a logical component, derived from its artifact
/// bytes.
#[derive(Debug, Clone, Copy, PartialEq, Eq, Hash, Structural)]
pub struct ComponentId(pub u64);

/// Descriptive metadata of a loaded component.
#[derive(Debug, Clone)]
pub struct ComponentMetadata {
    /// Identity of the component.
    pub id: ComponentId,
    /// Human-readable name.
    pub name: String,
    /// Version counter, starting at 1 on first load.
    pub version: u32,
    /// When the component was loaded.
    pub loaded_at: String,
    /// Whether the component was generated rather than hand-authored.
    pub ai_generated: bool,
}

/// The generated name of a component: `component-` followed by its identity
/// as 16 zero-padded hex digits.
pub open spec fn spec_component_name(id: u64) -> Seq<char> {
    "component-"@ + hex_rep(id as int, 16)
}

/// A timestamp string: `timestamp-` followed by a second count in decimal.
pub open spec fn is_timestamp_string(s: Seq<char>) -> bool {
    exists|secs: int| 0 <= secs <= u64::MAX && s == "timestamp-"@ + dec_rep(secs)
}

/// Reads the system clock.
///
/// Relies on `std::time::SystemTime::now`: seconds elapsed since the Unix
/// epoch, or 0 if the clock reports an instant before it. Nothing is promised
/// of the result, since it depends on the clock.
#[verifier::external_body]
fn unix_time_seconds() -> (r: u64) {
    std::time::SystemTime::now()
        .duration_since(std::time::UNIX_EPOCH)
        .map(|d| d.as_secs())
        .unwrap_or(0)
}

/// Current time as a `timestamp-` string.
pub fn get_timestamp() -> (r: String)
    ensures
        is_timestamp_string(r@),
{
    let secs = unix_time_seconds();
    let mut s = String::from_str("timestamp-");
    append_dec(&mut s, secs);
    s
}

/// A loaded component instance: artifact bytes, metadata, and the permission
/// grant it executes under.
#[derive(Debug)]
pub struct WasmComponent {
    permissions: Permissions,
    metadata: ComponentMetadata,
    wasm_bytes: Vec<u8>,
}

impl WasmComponent {
    /// The permission grant.
    pub closed spec fn spec_permissions(&self) -> Permissions {
        self.permissions
    }

    /// The metadata record.
    pub closed spec fn spec_metadata(&self) -> ComponentMetadata {
        self.metadata
    }

    /// The stored artifact bytes.
    pub closed spec fn spec_bytes(&self) -> Seq<u8> {
        self.wasm_bytes@
    }
}

/// What holds of a component freshly loaded from `bytes` under `grant`:
/// identity is the content hash of the bytes, the version is 1, the name is
/// derived from the identity, the grant is stored verbatim, and the bytes are
/// kept for reload.
pub open spec fn loaded_from(c: WasmComponent, bytes: Seq<u8>, grant: Permissions) -> bool {
    &&& c.spec_metadata().id == ComponentId(spec_simple_hash(bytes))
    &&& c.spec_metadata().name@ == spec_component_name(spec_simple_hash(bytes))
    &&& c.spec_metadata().version == 1
    &&& is_timestamp_string(c.spec_metadata().loaded_at@)
    &&& c.spec_metadata().ai_generated == false
    &&& c.spec_permissions() == grant
    &&& c.spec_bytes() == bytes
}

/// How one reload step changes a component: the artifact bytes are replaced
/// and the version increments by exactly one; identity, name, load time,
/// generated flag and grant are unchanged.
pub open spec fn reloaded(pre: WasmComponent, post: WasmComponent, bytes: Seq<u8>) -> bool {
    &&& post.spec_bytes() == bytes
    &&& post.spec_metadata().version == pre.spec_metadata().version + 1
    &&& post.spec_metadata().id == pre.spec_metadata().id
    &&& post.spec_metadata().name == pre.spec_metadata().name
    &&& post.spec_metadata().loaded_at == pre.spec_metadata().loaded_at
    &&& post.spec_metadata().ai_generated == pre.spec_metadata().ai_generated
    &&& post.spec_permissions() == pre.spec_permissions()
}

impl WasmComponent {
    /// Load a component from artifact bytes under the given grant.
    ///
    /// Never fails for any byte input: validating the artifact is the
    /// builder's job, upstream of this call.
    pub fn load(wasm_bytes: &[u8], permissions: Permissions) -> (r: MorpheusResult<
        WasmComponent,
    >)
        ensures
            r is Ok,
            loaded_from(r.unwrap(), wasm_bytes@, permissions),
    {
        let hash = simple_hash(wasm_bytes);
        let component_id = ComponentId(hash);
        let mut name = String::from_str("component-");
        append_hex(&mut name, hash, 16);
        let metadata = ComponentMetadata {
            id: component_id,
            name,
            version: 1,
            loaded_at: get_timestamp(),
            ai_generated: false,
        };
        Ok(WasmComponent { permissions, metadata, wasm_bytes: vstd::slice::slice_to_vec(wasm_bytes) })
    }

    /// The component's identity.
    pub fn id(&self) -> (r: ComponentId)
        ensures
            r == self.spec_metadata().id,
    {
        self.metadata.id
    }

    /// The grant the component executes under.
    pub fn permissions(&self) -> (r: &Permissions)
        ensures
            *r == self.spec_permissions(),
    {
        &self.permissions
    }

    /// The component's metadata.
    pub fn metadata(&self) -> (r: &ComponentMetadata)
        ensures
            *r == self.spec_metadata(),
    {
        &self.metadata
    }

    /// The stored artifact bytes.
    pub fn wasm_bytes(&self) -> (r: &Vec<u8>)
        ensures
            r@ == self.spec_bytes(),
    {
        &self.wasm_bytes
    }

    /// Hot-reload: replace the artifact bytes, incrementing the version and
    /// preserving identity and grant.
    pub fn reload(&mut self, wasm_bytes: &[u8]) -> (r: MorpheusResult<()>)
        requires
            old(self).spec_metadata().version < u32::MAX,
        ensures
            r is Ok,
            reloaded(*old(self), *final(self), wasm_bytes@),
    {
        self.wasm_bytes = vstd::slice::slice_to_vec(wasm_bytes);
        self.metadata.version = self.metadata.version + 1;
        Ok(())
    }
}

/// Law: identity depends on the artifact bytes alone. Two loads of the same
/// bytes agree on identity, whatever grants they were given.
pub proof fn lemma_identity_ignores_grant(
    c1: WasmComponent,
    c2: WasmComponent,
    bytes: Seq<u8>,
    g1: Permissions,
    g2: Permissions,
)
    requires
        loaded_from(c1, bytes, g1),
        loaded_from(c2, bytes, g2),
    ensures
        c1.spec_metadata().id == c2.spec_metadata().id,
{
}

/// Law: loads of artifacts whose content hashes differ get distinct
/// identities. (Identity is a 64-bit hash of the full content, so distinct
/// byte strings can still collide in principle; the law holds exactly for
/// hash-distinct inputs.)
pub proof fn lemma_distinct_hashes_distinct_identities(
    c1: WasmComponent,
    c2: WasmComponent,
    b1: Seq<u8>,
    b2: Seq<u8>,
    g1: Permissions,
    g2: Permissions,
)
    requires
        loaded_from(c1, b1, g1),
        loaded_from(c2, b2, g2),
        spec_simple_hash(b1) != spec_simple_hash(b2),
    ensures
        c1.spec_metadata().id != c2.spec_metadata().id,
{
}

/// Law: a chain of `n` reloads increments the version by exactly `n` and
/// leaves identity and grant untouched.
pub proof fn lemma_reload_chain(states: Seq<WasmComponent>, artifacts: Seq<Seq<u8>>)
    requires
        states.len() == artifacts.len() + 1,
        forall|i: int|
            0 <= i < artifacts.len() ==> reloaded(states[i], #[trigger] states[i + 1], artifacts[i]),
    ensures
        states.last().spec_metadata().version == states[0].spec_metadata().version
            + artifacts.len(),
        states.last().spec_metadata().id == states[0].spec_metadata().id,
        states.last().spec_permissions() == states[0].spec_permissions(),
    decreases artifacts.len(),
{
    if artifacts.len() == 0 {
    } else {
        let sub_states = states.drop_last();
        let sub_artifacts = artifacts.drop_last();
        assert forall|i: int| 0 <= i < sub_artifacts.len() implies reloaded(
            sub_states[i],
            #[trigger] sub_states[i + 1],
            sub_artifacts[i],
        ) by {
            assert(sub_states[i] == states[i]);
            assert(sub_states[i + 1] == states[i + 1]);
            assert(sub_artifacts[i] == artifacts[i]);
        }
        lemma_reload_chain(sub_states, sub_artifacts);
        assert(sub_states.last() == states[states.len() - 2]);
        assert(reloaded(
            states[artifacts.len() - 1],
            states[artifacts.len() as int],
            artifacts.last(),
        ));
    }
}

} // verus!
