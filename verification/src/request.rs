use crate::config::ServerConfig;
use vstd::prelude::*;

verus! {

/// The provider create-request, as far as this facade fills it: the
/// required image, name and server type, the zone as the optional
/// location, and the optional SSH keys, labels and user data. An absent
/// option is omitted from the request, not sent empty.
#[derive(Debug, Clone)]
pub struct CreateRequest {
    pub image: String,
    pub name: String,
    pub server_type: String,
    pub location: String,
    pub ssh_keys: Vec<String>,
    pub labels: Option<Vec<(String, String)>>,
    pub user_data: Option<String>,
}

/// How a create request relates to the configuration and name it was
/// built from: image, name and instance type are taken over exactly,
/// the zone becomes the location, and SSH keys, labels and cloud-init
/// pass through unchanged — an absent option stays absent.
pub open spec fn builds_request(config: ServerConfig, name: String, req: CreateRequest) -> bool {
    &&& req.image == config.image
    &&& req.name == name
    &&& req.server_type == config.instance_type
    &&& req.location == config.zone
    &&& req.ssh_keys == config.ssh_keys
    &&& req.labels == config.labels
    &&& req.user_data == config.cloud_init
}

/// The server-list query the facade issues. Every field is a filter or
/// paging override; the facade never sets any of them.
#[derive(Debug, Clone)]
pub struct ListQuery {
    pub name: Option<String>,
    pub label_selector: Option<String>,
    pub sort: Option<Vec<String>>,
    pub status: Option<Vec<String>>,
    pub page: Option<i64>,
    pub per_page: Option<i64>,
}

/// A query with no filter, no sort and provider-default pagination.
pub open spec fn is_unfiltered(q: ListQuery) -> bool {
    &&& q.name is None
    &&& q.label_selector is None
    &&& q.sort is None
    &&& q.status is None
    &&& q.page is None
    &&& q.per_page is None
}

} // verus!
