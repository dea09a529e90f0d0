use security_mode::profile::{get_profile_config, DiskAccess, NetworkMode};

#[test]
fn unknown_profile_resolves_to_default() {
    for name in ["", "unknown", "Safe", "aggressive ", "bezpieczny"] {
        let c = get_profile_config(name);
        assert!(c.capabilities.is_empty());
        assert_eq!(c.network, NetworkMode::Isolated);
        assert_eq!(c.disk_access, DiskAccess::ReadOnly);
    }
}

#[test]
fn aggressive_profile_grants_network_admin() {
    let c = get_profile_config("aggressive");
    assert_eq!(c.capabilities, vec!["CAP_NET_ADMIN".to_string(), "CAP_SYS_ADMIN".to_string()]);
    assert_eq!(c.network, NetworkMode::Bridge);
    assert_eq!(c.disk_access, DiskAccess::Full);
}

#[test]
fn safe_profile_is_isolated_read_only() {
    let c = get_profile_config("safe");
    assert!(c.capabilities.is_empty());
    assert_eq!(c.network, NetworkMode::Isolated);
    assert_eq!(c.disk_access, DiskAccess::ReadOnly);
}

#[test]
fn monitor_only_profile_grants_nothing() {
    let c = get_profile_config("monitor-only");
    assert!(c.capabilities.is_empty());
    assert_eq!(c.network, NetworkMode::Disabled);
    assert_eq!(c.disk_access, DiskAccess::NoAccess);
}
