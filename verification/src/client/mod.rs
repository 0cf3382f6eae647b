//! The indexer's HTTP client: configuration, request planning, offer list
//! queries and error mapping.

pub mod config;
pub mod error;
pub mod query;
pub mod requests;
pub mod transport;

pub use config::{
    DEFAULT_TIMEOUT_SECS, IndexerClient, IndexerClientConfig, check_response, is_success_status,
};
pub use error::{
    ApiErrorBody, ApiErrorDetail, IndexerClientError, classify_transport_failure, decode_failure,
    map_api_error,
};
pub use query::{OfferListParams, OfferSortBy, SortDir, participant_role_query};
pub use requests::ApiRequest;
