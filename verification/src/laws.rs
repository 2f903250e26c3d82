use crate::config::is_default_config;
use crate::config::ServerConfig;
use crate::request::builds_request;
use crate::request::CreateRequest;
use vstd::prelude::*;

verus! {

/// Law: a request built from a configuration with only defaults set
/// carries the caller's name and the default image, instance type and
/// location exactly, and asks for no SSH keys.
pub proof fn lemma_default_request(config: ServerConfig, name: String, req: CreateRequest)
    requires
        is_default_config(config),
        builds_request(config, name, req),
    ensures
        req.image@ == "debian-11"@,
        req.name == name,
        req.server_type@ == "cpx11"@,
        req.location@ == "ash"@,
        req.ssh_keys@ == Seq::<String>::empty(),
{
}

/// Law: when the configuration carries no labels, the emitted request
/// omits labels entirely rather than sending an empty mapping.
pub proof fn lemma_absent_labels_omitted(config: ServerConfig, name: String, req: CreateRequest)
    requires
        config.labels is None,
        builds_request(config, name, req),
    ensures
        req.labels is None,
{
}

/// Law: when the configuration carries no cloud-init script, the
/// emitted request omits user data entirely.
pub proof fn lemma_absent_cloud_init_omitted(config: ServerConfig, name: String, req: CreateRequest)
    requires
        config.cloud_init is None,
        builds_request(config, name, req),
    ensures
        req.user_data is None,
{
}

} // verus!
