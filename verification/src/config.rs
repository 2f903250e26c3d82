use vstd::prelude::*;

verus! {

/// Configuration for a server to be provisioned. The caller builds it,
/// overrides what it wants, and passes it to the facade unchanged.
/// Every field has a provider-accepted default, so a configuration with
/// no overrides still yields a valid create request.
#[derive(Debug, Clone)]
pub struct ServerConfig {
    /// Identifier of the OS image.
    pub image: String,
    /// Identifier of the machine size.
    pub instance_type: String,
    /// Identifier of the datacenter location.
    pub zone: String,
    /// Ordered SSH key identifiers; empty by default.
    pub ssh_keys: Vec<String>,
    /// Optional boot-time provisioning script (user data); absent by default.
    pub cloud_init: Option<String>,
    /// Optional key-value tags; absent by default.
    pub labels: Option<Vec<(String, String)>>,
}

/// A configuration in which every field still holds its default value.
pub open spec fn is_default_config(c: ServerConfig) -> bool {
    &&& c.image@ == "debian-11"@
    &&& c.instance_type@ == "cpx11"@
    &&& c.zone@ == "ash"@
    &&& c.ssh_keys@ == Seq::<String>::empty()
    &&& c.cloud_init is None
    &&& c.labels is None
}

impl Default for ServerConfig {
    /// The provider-accepted defaults: a Debian 11 image on a cpx11
    /// instance in the ash location, no SSH keys, no cloud-init script,
    /// no labels.
    fn default() -> (c: Self)
        ensures
            is_default_config(c),
    {
        ServerConfig {
            image: String::from_str("debian-11"),
            instance_type: String::from_str("cpx11"),
            zone: String::from_str("ash"),
            ssh_keys: Vec::new(),
            cloud_init: None,
            labels: None,
        }
    }
}

} // verus!
