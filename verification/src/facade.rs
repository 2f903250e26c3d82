use crate::config::ServerConfig;
use crate::request::builds_request;
use crate::request::is_unfiltered;
use crate::request::CreateRequest;
use crate::request::ListQuery;
use vstd::prelude::*;

verus! {

/// The provisioning facade. It is stateless beyond the stored bearer
/// credential, which is read-only after construction and presented to
/// the provider on every call, so it is safe to share across callers.
///
/// Each operation of the facade is one provider call: this type fixes
/// what that call carries (`create_server_request`,
/// `list_servers_query`) and the transport performing the call hands
/// its outcome to `crate::api_result`, which fixes what the caller gets
/// back.
#[derive(Debug, Clone)]
pub struct Hetzner {
    access_token: String,
}

impl Hetzner {
    /// The stored bearer credential.
    pub closed spec fn token(&self) -> Seq<char> {
        self.access_token@
    }

    /// Constructs the facade around the given bearer access token.
    pub fn new(access_token: String) -> (h: Self)
        ensures
            h.token() == access_token@,
    {
        Hetzner { access_token }
    }

    /// The credential to present to the provider on every call.
    pub fn access_token(&self) -> (t: &String)
        ensures
            t@ == self.token(),
    {
        &self.access_token
    }

    /// The create request this facade issues for a configuration and a
    /// server name. The name is not validated locally: an empty or
    /// invalid one is passed on for the provider to reject.
    pub fn create_server_request(&self, config: ServerConfig, name: String) -> (req: CreateRequest)
        ensures
            builds_request(config, name, req),
    {
        CreateRequest {
            image: config.image,
            name,
            server_type: config.instance_type,
            location: config.zone,
            ssh_keys: config.ssh_keys,
            labels: config.labels,
            user_data: config.cloud_init,
        }
    }

    /// The query issued when listing servers: always unfiltered, so the
    /// result is every server visible to the credential, in the order
    /// the provider returns.
    pub fn list_servers_query(&self) -> (q: ListQuery)
        ensures
            is_unfiltered(q),
    {
        ListQuery {
            name: None,
            label_selector: None,
            sort: None,
            status: None,
            page: None,
            per_page: None,
        }
    }
}

} // verus!
