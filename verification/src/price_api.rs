//! Wiring of the CoinMarketCap price-API client.
//!
//! The layer turns a price-API configuration into the resource that the
//! base-token ratio persister consumes. The network client itself lives
//! outside the verified library; the layer's logic is carrying the
//! configuration into the resource unchanged.

use vstd::prelude::*;

verus! {

/// Configuration of an external price-API client.
pub struct ExternalPriceApiClientConfig {
    /// Which provider the client talks to.
    pub source: String,
    /// The provider's base URL, if not the default.
    pub base_url: Option<String>,
    /// The API key, if the provider needs one.
    pub api_key: Option<String>,
    /// The request timeout, in milliseconds.
    pub client_timeout_ms: u64,
}

/// The resource a wired price-API client is published as.
pub struct PriceApiClientResource {
    /// The configuration the client was built with.
    pub config: ExternalPriceApiClientConfig,
}

/// What wiring the layer produces.
pub struct Output {
    pub price_api_client: PriceApiClientResource,
}

/// Wiring layer for the CoinMarketCap price-API client.
pub struct CmcClientLayer {
    pub config: ExternalPriceApiClientConfig,
}

impl CmcClientLayer {
    /// Identifier of the client type this layer wires; used to choose
    /// the layer from configuration.
    pub fn client_name() -> (r: &'static str)
        ensures
            r@ == "cmc"@,
    {
        "cmc"
    }

    /// A layer for the given configuration.
    pub fn new(config: ExternalPriceApiClientConfig) -> (r: CmcClientLayer)
        ensures
            r.config.source@ == config.source@,
            r.config.base_url == config.base_url,
            r.config.api_key == config.api_key,
            r.config.client_timeout_ms == config.client_timeout_ms,
    {
        CmcClientLayer { config }
    }

    /// The layer's name in wiring reports.
    pub fn layer_name(&self) -> (r: &'static str)
        ensures
            r@ == "cmc_api_client"@,
    {
        "cmc_api_client"
    }

    /// Wires the layer: publishes the client, built from the layer's
    /// configuration, as a resource.
    pub fn wire(self) -> (r: Output)
        ensures
            r.price_api_client.config.source@ == self.config.source@,
            r.price_api_client.config.base_url == self.config.base_url,
            r.price_api_client.config.api_key == self.config.api_key,
            r.price_api_client.config.client_timeout_ms == self.config.client_timeout_ms,
    {
        Output { price_api_client: PriceApiClientResource { config: self.config } }
    }
}

} // verus!
