//! Permission grants for sandboxed components.
//!
//! A component declares what it may do; the runtime enforces the limits. The
//! default grant is maximally restrictive, which is what untrusted (for
//! example, generated) components must run under. A grant is immutable once
//! attached to a component instance.

use vstd::prelude::*;

verus! {

/// Network access granted to a component.
#[derive(Debug, Clone)]
pub enum NetworkPermissions {
    /// No network access allowed.
    Denied,
    /// Access to the listed domains only.
    AllowList(Vec<String>),
    /// Access to any domain.
    Unrestricted,
}

/// Storage access granted to a component.
#[derive(Debug, Clone)]
pub enum StoragePermissions {
    /// No storage access.
    Denied,
    /// Access to the listed keys only.
    Limited(Vec<String>),
    /// Full storage access.
    Full,
}

/// A named capability a component may be granted.
#[derive(Debug, Clone, Copy, PartialEq, Eq, Hash, Structural)]
pub enum ApiPermission {
    Geolocation,
    Notifications,
    Camera,
    Microphone,
    Clipboard,
    Graphics,
}

/// The set of capability flags in a grant.
///
/// One flag per capability, so membership and size are plain functions of the
/// six fields.
#[derive(Debug, Clone, PartialEq, Eq, Structural)]
pub struct ApiPermissionSet {
    geolocation: bool,
    notifications: bool,
    camera: bool,
    microphone: bool,
    clipboard: bool,
    graphics: bool,
}

impl ApiPermissionSet {
    /// Whether the capability `p` is in the set.
    pub closed spec fn spec_contains(&self, p: ApiPermission) -> bool {
        match p {
            ApiPermission::Geolocation => self.geolocation,
            ApiPermission::Notifications => self.notifications,
            ApiPermission::Camera => self.camera,
            ApiPermission::Microphone => self.microphone,
            ApiPermission::Clipboard => self.clipboard,
            ApiPermission::Graphics => self.graphics,
        }
    }

    /// Number of capabilities in the set.
    pub closed spec fn spec_len(&self) -> int {
        (if self.geolocation {
            1int
        } else {
            0int
        }) + (if self.notifications {
            1int
        } else {
            0int
        }) + (if self.camera {
            1int
        } else {
            0int
        }) + (if self.microphone {
            1int
        } else {
            0int
        }) + (if self.clipboard {
            1int
        } else {
            0int
        }) + (if self.graphics {
            1int
        } else {
            0int
        })
    }

    /// The empty set: no capability granted.
    pub fn new() -> (r: ApiPermissionSet)
        ensures
            forall|p: ApiPermission| !r.spec_contains(p),
            r.spec_len() == 0,
    {
        ApiPermissionSet {
            geolocation: false,
            notifications: false,
            camera: false,
            microphone: false,
            clipboard: false,
            graphics: false,
        }
    }

    /// Grant the capability `p`. Returns whether it was newly added.
    pub fn insert(&mut self, p: ApiPermission) -> (r: bool)
        ensures
            final(self).spec_contains(p),
            forall|q: ApiPermission| q != p ==> final(self).spec_contains(q) == old(
                self,
            ).spec_contains(q),
            r == !old(self).spec_contains(p),
    {
        let had = self.contains(&p);
        match p {
            ApiPermission::Geolocation => {
                self.geolocation = true;
            },
            ApiPermission::Notifications => {
                self.notifications = true;
            },
            ApiPermission::Camera => {
                self.camera = true;
            },
            ApiPermission::Microphone => {
                self.microphone = true;
            },
            ApiPermission::Clipboard => {
                self.clipboard = true;
            },
            ApiPermission::Graphics => {
                self.graphics = true;
            },
        }
        !had
    }

    /// Whether the capability `p` is granted.
    pub fn contains(&self, p: &ApiPermission) -> (r: bool)
        ensures
            r == self.spec_contains(*p),
    {
        match p {
            ApiPermission::Geolocation => self.geolocation,
            ApiPermission::Notifications => self.notifications,
            ApiPermission::Camera => self.camera,
            ApiPermission::Microphone => self.microphone,
            ApiPermission::Clipboard => self.clipboard,
            ApiPermission::Graphics => self.graphics,
        }
    }

    /// Number of capabilities granted.
    pub fn len(&self) -> (r: usize)
        ensures
            r == self.spec_len(),
    {
        let mut n: usize = 0;
        if self.geolocation {
            n = n + 1;
        }
        if self.notifications {
            n = n + 1;
        }
        if self.camera {
            n = n + 1;
        }
        if self.microphone {
            n = n + 1;
        }
        if self.clipboard {
            n = n + 1;
        }
        if self.graphics {
            n = n + 1;
        }
        n
    }

    /// Whether no capability is granted.
    pub fn is_empty(&self) -> (r: bool)
        ensures
            r == (self.spec_len() == 0),
    {
        self.len() == 0
    }
}

/// The full permission grant of a component: network, storage, and
/// capability flags.
#[derive(Debug, Clone)]
pub struct Permissions {
    /// Network access permissions.
    pub network: NetworkPermissions,
    /// Local storage access.
    pub storage: StoragePermissions,
    /// Capability flags the component may use.
    pub apis: ApiPermissionSet,
}

impl Default for Permissions {
    /// The maximally restrictive grant: no network, no storage, no
    /// capabilities. Untrusted components must run under this default.
    fn default() -> (r: Self)
        ensures
            r.network is Denied,
            r.storage is Denied,
            r.apis.spec_len() == 0,
            forall|p: ApiPermission| !r.apis.spec_contains(p),
    {
        Permissions {
            network: NetworkPermissions::Denied,
            storage: StoragePermissions::Denied,
            apis: ApiPermissionSet::new(),
        }
    }
}

} // verus!
