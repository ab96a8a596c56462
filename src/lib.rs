//! Client for a DEX aggregation service: endpoint addressing, response
//! validation and decoding, and reshaping of the swap-instructions payload.
pub mod client;
pub mod response;
pub mod swap;

pub use client::{Endpoint, HttpMethod, JupiterSwapApiClient, BASE_PATH};
pub use response::{ApiError, ResponseBody};
