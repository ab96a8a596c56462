//! The client's configuration and how it addresses the service's endpoints.
use vstd::prelude::*;
use vstd::string::StringExecFns;

use crate::response::ApiError;

verus! {

/// The canonical, versioned endpoint of the service.
pub const BASE_PATH: &'static str = "https://quote-api.jup.ag/v6";

#[verifier::external_type_specification]
#[verifier::external_body]
pub struct ExClient(reqwest::Client);

#[verifier::external_type_specification]
#[verifier::external_body]
pub struct ExClientBuilder(reqwest::ClientBuilder);

#[verifier::external_type_specification]
#[verifier::external_body]
pub struct ExError(reqwest::Error);

/// Relies on reqwest::ClientBuilder::new: a builder with default settings
/// (no proxy, default timeouts, default trust store).
pub assume_specification[ reqwest::ClientBuilder::new ]() -> reqwest::ClientBuilder;

/// Relies on reqwest::ClientBuilder::build: the transport handle, or an
/// error where the TLS backend or the resolver cannot be set up.
pub assume_specification[ reqwest::ClientBuilder::build ](
    b: reqwest::ClientBuilder,
) -> reqwest::Result<reqwest::Client>;

/// Relies on reqwest::Client's derived `Clone`: a second handle onto the
/// same shared connection pool.
pub assume_specification[ <reqwest::Client as core::clone::Clone>::clone ](
    c: &reqwest::Client,
) -> reqwest::Client;

/// The operations of the service.
#[derive(Clone, Copy, Debug, PartialEq, Eq)]
pub enum Endpoint {
    Quote,
    Swap,
    SwapInstructions,
}

/// The HTTP method by which an operation is requested.
#[derive(Clone, Copy, Debug, PartialEq, Eq)]
pub enum HttpMethod {
    Get,
    Post,
}

/// The path of an endpoint below the base path.
pub open spec fn endpoint_path(e: Endpoint) -> Seq<char> {
    match e {
        Endpoint::Quote => "/quote"@,
        Endpoint::Swap => "/swap"@,
        Endpoint::SwapInstructions => "/swap-instructions"@,
    }
}

/// A quote is read with GET and its request sent as a query string; the
/// two swap operations POST their request as a JSON body.
pub open spec fn endpoint_method(e: Endpoint) -> HttpMethod {
    match e {
        Endpoint::Quote => HttpMethod::Get,
        _ => HttpMethod::Post,
    }
}

impl Endpoint {
    pub fn path(self) -> (r: &'static str)
        ensures
            r@ == endpoint_path(self),
    {
        match self {
            Endpoint::Quote => "/quote",
            Endpoint::Swap => "/swap",
            Endpoint::SwapInstructions => "/swap-instructions",
        }
    }

    pub fn method(self) -> (r: HttpMethod)
        ensures
            r == endpoint_method(self),
    {
        match self {
            Endpoint::Quote => HttpMethod::Get,
            Endpoint::Swap => HttpMethod::Post,
            Endpoint::SwapInstructions => HttpMethod::Post,
        }
    }
}

/// A client of the service: a transport handle and the base path that
/// every endpoint address starts with.
#[derive(Clone)]
pub struct JupiterSwapApiClient {
    pub client: reqwest::Client,
    pub base_path: String,
}

impl JupiterSwapApiClient {
    pub fn new(base_path: String, client: reqwest::Client) -> (r: Self)
        ensures
            r.base_path == base_path,
            r.client == client,
    {
        Self { base_path, client }
    }

    /// The address of an endpoint: the base path followed by the
    /// endpoint's path.
    pub fn url(&self, endpoint: Endpoint) -> (r: String)
        ensures
            r@ == self.base_path@ + endpoint_path(endpoint),
    {
        self.base_path.clone().concat(endpoint.path())
    }
}

impl JupiterSwapApiClient {
    /// A client on the canonical base path with a freshly built transport
    /// handle. Whether the handle can be built depends on the process (its
    /// TLS backend and resolver), so only the base path is promised.
    pub fn try_default() -> (r: Result<Self, ApiError>)
        ensures
            r matches Ok(c) ==> c.base_path@ == BASE_PATH@,
            r matches Err(e) ==> e is Transport,
    {
        match reqwest::ClientBuilder::new().build() {
            Ok(client) => Ok(Self { client, base_path: String::from_str(BASE_PATH) }),
            Err(e) => Err(ApiError::Transport { message: e.to_string() }),
        }
    }
}

} // verus!
