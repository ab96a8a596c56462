use jupiter_swap_api_client::{Endpoint, HttpMethod, JupiterSwapApiClient, BASE_PATH};

#[test]
fn default_uses_canonical_base_path() {
    let client = JupiterSwapApiClient::try_default().unwrap();
    assert_eq!(client.base_path, BASE_PATH);
    assert_eq!(client.base_path, "https://quote-api.jup.ag/v6");
}

#[test]
fn default_endpoint_urls() {
    let client = JupiterSwapApiClient::try_default().unwrap();
    assert_eq!(client.url(Endpoint::Quote), "https://quote-api.jup.ag/v6/quote");
    assert_eq!(client.url(Endpoint::Swap), "https://quote-api.jup.ag/v6/swap");
    assert_eq!(
        client.url(Endpoint::SwapInstructions),
        "https://quote-api.jup.ag/v6/swap-instructions"
    );
}

#[test]
fn new_keeps_base_path() {
    let client = JupiterSwapApiClient::new("http://localhost:8080".to_string(), reqwest::Client::new());
    assert_eq!(client.base_path, "http://localhost:8080");
    assert_eq!(client.url(Endpoint::Quote), "http://localhost:8080/quote");
    assert_eq!(client.url(Endpoint::SwapInstructions), "http://localhost:8080/swap-instructions");
}

#[test]
fn url_with_empty_base_is_the_path() {
    let client = JupiterSwapApiClient::new(String::new(), reqwest::Client::new());
    assert_eq!(client.url(Endpoint::Swap), "/swap");
}

#[test]
fn endpoint_paths_and_methods() {
    assert_eq!(Endpoint::Quote.path(), "/quote");
    assert_eq!(Endpoint::Swap.path(), "/swap");
    assert_eq!(Endpoint::SwapInstructions.path(), "/swap-instructions");
    assert_eq!(Endpoint::Quote.method(), HttpMethod::Get);
    assert_eq!(Endpoint::Swap.method(), HttpMethod::Post);
    assert_eq!(Endpoint::SwapInstructions.method(), HttpMethod::Post);
}

#[test]
fn clone_keeps_base_path() {
    let client = JupiterSwapApiClient::new("https://example.org/v1".to_string(), reqwest::Client::new());
    let copy = client.clone();
    assert_eq!(copy.base_path, "https://example.org/v1");
    assert_eq!(copy.url(Endpoint::Quote), client.url(Endpoint::Quote));
}
