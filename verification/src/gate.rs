//! The build gate: loading is committed only on a successful build.
//!
//! The builder runs outside this library and takes long; callers hand its
//! finished outcome in here. On success the artifact is wrapped into a
//! component, registered, and recorded in the version history, in that
//! order. On failure the diagnostics are handed back unchanged and neither
//! the registry nor the history is touched: the all-or-nothing contract the
//! engine owes its environment.

use vstd::prelude::*;

use crate::component::{loaded_from, ComponentId, ComponentMetadata, WasmComponent};
use crate::errors::{MorpheusError, MorpheusResult};
use crate::history::{version_added, VersionHistory};
use crate::permissions::Permissions;
use crate::registry::ComponentRegistry;
use crate::spec_simple_hash;

verus! {

/// Commit the outcome of a build.
///
/// A successful build's artifact is loaded under `grant`, registered under
/// its content-derived identity, and appended to the version history, which
/// snapshots the cached external state. A failed build changes nothing and
/// returns its diagnostics unchanged.
pub fn install_build(
    registry: &mut ComponentRegistry,
    history: &mut VersionHistory,
    build: MorpheusResult<Vec<u8>>,
    name: String,
    description: String,
    grant: Permissions,
    generated: bool,
) -> (r: MorpheusResult<(ComponentId, usize)>)
    requires
        old(registry).wf(),
        old(history).wf(),
        old(history).spec_versions().len() < usize::MAX,
    ensures
        final(registry).wf(),
        final(history).wf(),
        match (build, r) {
            (Ok(bytes), Ok((id, vid))) => {
                &&& id == ComponentId(spec_simple_hash(bytes@))
                &&& final(registry).spec_entries().contains_key(id.0)
                &&& loaded_from(final(registry).spec_entries()[id.0].0, bytes@, grant)
                &&& final(registry).spec_entries()[id.0].1 == final(registry).spec_entries()[id.0].0.spec_metadata()
                &&& final(registry).spec_entries() == old(registry).spec_entries().insert(
                    id.0,
                    final(registry).spec_entries()[id.0],
                )
                &&& version_added(
                    *old(history),
                    *final(history),
                    name,
                    description,
                    bytes@,
                    generated,
                    vid,
                )
            },
            (Err(e), Err(e2)) => {
                &&& e2 == e
                &&& final(registry).spec_entries() == old(registry).spec_entries()
                &&& final(history).spec_versions() == old(history).spec_versions()
                &&& final(history).spec_current_index() == old(history).spec_current_index()
                &&& final(history).spec_current_state() == old(history).spec_current_state()
            },
            _ => false,
        },
{
    match build {
        Ok(bytes) => {
            let component = match WasmComponent::load(bytes.as_slice(), grant) {
                Ok(c) => c,
                Err(e) => {
                    proof {
                        assert(false);
                    }
                    return Err(e);
                },
            };
            let id = component.id();
            let md = component.metadata();
            let metadata = ComponentMetadata {
                id: md.id,
                name: md.name.clone(),
                version: md.version,
                loaded_at: md.loaded_at.clone(),
                ai_generated: md.ai_generated,
            };
            registry.register(id, component, metadata);
            let vid = history.add_version(name, description, bytes, generated);
            Ok((id, vid))
        },
        Err(e) => Err(e),
    }
}

} // verus!
