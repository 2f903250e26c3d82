mod config;
mod error;
mod facade;
mod laws;
mod request;

pub use config::is_default_config;
pub use config::ServerConfig;
pub use error::api_result;
pub use error::Error;
pub use facade::Hetzner;
pub use laws::lemma_absent_cloud_init_omitted;
pub use laws::lemma_absent_labels_omitted;
pub use laws::lemma_default_request;
pub use request::builds_request;
pub use request::is_unfiltered;
pub use request::CreateRequest;
pub use request::ListQuery;
