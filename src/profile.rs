//! The built-in catalog of security profiles used by the daemon.
use vstd::prelude::*;
use crate::text::{owned, str_eq};

verus! {

/// How a sandboxed module may reach the network.
#[derive(Clone, Copy, Debug, PartialEq, Eq, Structural)]
pub enum NetworkMode {
    /// The host's network stack is shared.
    Bridge,
    /// A fresh network namespace with loopback only.
    Isolated,
    /// No network at all.
    Disabled,
}

/// How a sandboxed module may reach the host's disk.
#[derive(Clone, Copy, Debug, PartialEq, Eq, Structural)]
pub enum DiskAccess {
    Full,
    ReadOnly,
    NoAccess,
}

/// The settings a profile grants.
#[derive(Clone, Debug)]
pub struct ProfileConfig {
    pub capabilities: Vec<String>,
    pub network: NetworkMode,
    pub disk_access: DiskAccess,
}

/// The mathematical content of a `ProfileConfig`.
pub struct ProfileView {
    pub capabilities: Seq<Seq<char>>,
    pub network: NetworkMode,
    pub disk_access: DiskAccess,
}

impl View for ProfileConfig {
    type V = ProfileView;

    open spec fn view(&self) -> ProfileView {
        ProfileView {
            capabilities: self.capabilities.deep_view(),
            network: self.network,
            disk_access: self.disk_access,
        }
    }
}

/// Whether a sandbox under this network mode keeps the host's network.
pub open spec fn shares_host_network(m: NetworkMode) -> bool {
    m == NetworkMode::Bridge
}

/// The entry that every name outside the catalog resolves to.
pub open spec fn default_profile() -> ProfileView {
    ProfileView {
        capabilities: Seq::empty(),
        network: NetworkMode::Isolated,
        disk_access: DiskAccess::ReadOnly,
    }
}

/// Whether `name` is one of the catalog's named entries.
pub open spec fn is_catalog_name(name: Seq<char>) -> bool {
    name == "aggressive"@ || name == "safe"@ || name == "monitor-only"@
}

/// The catalog, as a function from profile name to settings.
pub open spec fn resolve_profile(name: Seq<char>) -> ProfileView {
    if name == "aggressive"@ {
        ProfileView {
            capabilities: seq!["CAP_NET_ADMIN"@, "CAP_SYS_ADMIN"@],
            network: NetworkMode::Bridge,
            disk_access: DiskAccess::Full,
        }
    } else if name == "monitor-only"@ {
        ProfileView {
            capabilities: Seq::empty(),
            network: NetworkMode::Disabled,
            disk_access: DiskAccess::NoAccess,
        }
    } else {
        // "safe" coincides with the default entry
        default_profile()
    }
}

/// Looks `profile` up in the catalog; unknown names give the default entry.
pub fn get_profile_config(profile: &str) -> (r: ProfileConfig)
    ensures
        r@ == resolve_profile(profile@),
{
    if str_eq(profile, "aggressive") {
        let caps = vec![owned("CAP_NET_ADMIN"), owned("CAP_SYS_ADMIN")];
        let r = ProfileConfig {
            capabilities: caps,
            network: NetworkMode::Bridge,
            disk_access: DiskAccess::Full,
        };
        assert(r@.capabilities =~= seq!["CAP_NET_ADMIN"@, "CAP_SYS_ADMIN"@]);
        r
    } else if str_eq(profile, "monitor-only") {
        let r = ProfileConfig {
            capabilities: Vec::new(),
            network: NetworkMode::Disabled,
            disk_access: DiskAccess::NoAccess,
        };
        assert(r@.capabilities =~= Seq::<Seq<char>>::empty());
        r
    } else {
        let r = ProfileConfig {
            capabilities: Vec::new(),
            network: NetworkMode::Isolated,
            disk_access: DiskAccess::ReadOnly,
        };
        assert(r@.capabilities =~= Seq::<Seq<char>>::empty());
        r
    }
}

/// Every name outside the catalog resolves to the default entry: no
/// capabilities, an isolated network and read-only disk access.
pub proof fn lemma_unknown_profile_is_default(name: Seq<char>)
    requires
        !is_catalog_name(name),
    ensures
        resolve_profile(name) == default_profile(),
{
}

} // verus!
