//! An HTTP API described as a value, independent of the client that
//! eventually executes it: what an endpoint is (method, path, query,
//! headers, body, response parsing) is separated from how the request
//! is sent, so client libraries can be swapped and API definitions can
//! be tested and composed without network access.

mod api;
mod client;
mod headers;
mod method;
mod response;

pub use api::identity;
pub use api::lemma_identity_transform;
pub use api::lemma_rewrap_applies_in_order;
pub use api::lemma_transform_delegates;
pub use api::lemma_transform_reports;
pub use api::lemma_transform_wf;
pub use api::lemma_transforms_independent;
pub use api::lemma_transforms_independent_query;
pub use api::Api;
pub use api::Transform;
pub use client::build_request_url;
pub use client::dispatch;
pub use client::query_pairs_view;
pub use client::resolved_query_pairs;
pub use client::url_query_pairs;
pub use client::url_resolution_accepts;
pub use client::Client;
pub use client::SendError;
pub use headers::Headers;
pub use headers::Query;
pub use method::Method;
pub use response::lemma_status_classes_partition;
pub use response::status_class_count;
pub use response::HttpResponse;
