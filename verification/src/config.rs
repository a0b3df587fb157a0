//! The settings of a client: what the user gave, completed with defaults,
//! and the provider handles made from them, each made once.

use crate::endpoint::{
    derived_url, get_graux_http_url, get_graux_nft_http_url, get_graux_webhook_http_url,
    get_graux_ws_url, supported_pair, GrauxApiType,
};
use crate::error::{ErrorView, GrauxError};
use crate::network::{Network, DEFAULT_NETWORK};
use crate::provider::{
    api_key_or_default, resolved_network, sdk_headers, ConnectionInfo, ConnectionView,
    GrauxProvider, ProviderView, IS_BROWSER,
};
use crate::text::same_text;
use vstd::prelude::*;

verus! {

/// The API key used where none is given.
pub const DEFAULT_GRAUX_API_KEY: &'static str = "demo";

/// How many times a failed request is sent again where nothing else is
/// asked for.
pub const DEFAULT_MAX_RETRIES: u32 = 5;

/// The time a request may take, in milliseconds, where nothing else is
/// asked for.
pub const DEFAULT_REQUEST_TIMEOUT: u32 = 30000;

/// What the user may set; every field is optional.
#[derive(Debug, PartialEq, Eq)]
pub struct GrauxSettings {
    pub api_key: Option<String>,
    pub network: Option<String>,
    pub max_retries: Option<u32>,
    pub batch_requests: Option<bool>,
    pub url: Option<String>,
    pub auth_token: Option<String>,
    pub request_timeout: Option<u32>,
}

/// The characters of an optional text.
pub open spec fn optional_text(s: Option<String>) -> Option<Seq<char>> {
    match s {
        Some(t) => Some(t@),
        None => None,
    }
}

/// The mathematical value of a [`GrauxSettings`].
pub struct SettingsView {
    pub api_key: Option<Seq<char>>,
    pub network: Option<Seq<char>>,
    pub max_retries: Option<u32>,
    pub batch_requests: Option<bool>,
    pub url: Option<Seq<char>>,
    pub auth_token: Option<Seq<char>>,
    pub request_timeout: Option<u32>,
}

impl View for GrauxSettings {
    type V = SettingsView;

    open spec fn view(&self) -> SettingsView {
        SettingsView {
            api_key: optional_text(self.api_key),
            network: optional_text(self.network),
            max_retries: self.max_retries,
            batch_requests: self.batch_requests,
            url: optional_text(self.url),
            auth_token: optional_text(self.auth_token),
            request_timeout: self.request_timeout,
        }
    }
}

/// The value of optional settings.
pub open spec fn optional_settings_view(s: Option<GrauxSettings>) -> Option<SettingsView> {
    match s {
        Some(settings) => Some(settings@),
        None => None,
    }
}

/// The mathematical value of a [`GrauxConfig`]: its settings, without the
/// handles it may have made.
pub struct ConfigView {
    pub api_key: Seq<char>,
    pub network: Network,
    pub max_retries: u32,
    pub batch_requests: bool,
    pub url: Option<Seq<char>>,
    pub auth_token: Option<Seq<char>>,
    pub request_timeout: u32,
}

/// The settings with nothing given: every default.
pub open spec fn default_config() -> ConfigView {
    ConfigView {
        api_key: DEFAULT_GRAUX_API_KEY@,
        network: DEFAULT_NETWORK,
        max_retries: DEFAULT_MAX_RETRIES,
        batch_requests: false,
        url: None,
        auth_token: None,
        request_timeout: DEFAULT_REQUEST_TIMEOUT,
    }
}

/// What the user's settings resolve to: every given value as it is, the
/// default for every other, and a failure for a network name that names no
/// network.
pub open spec fn resolved(settings: Option<SettingsView>) -> Result<ConfigView, ErrorView> {
    match settings {
        None => Ok(default_config()),
        Some(s) => match resolved_network(s.network) {
            Err(e) => Err(e),
            Ok(network) => Ok(
                ConfigView {
                    api_key: api_key_or_default(s.api_key),
                    network,
                    max_retries: match s.max_retries {
                        Some(n) => n,
                        None => DEFAULT_MAX_RETRIES,
                    },
                    batch_requests: match s.batch_requests {
                        Some(b) => b,
                        None => false,
                    },
                    url: s.url,
                    auth_token: s.auth_token,
                    request_timeout: match s.request_timeout {
                        Some(t) => t,
                        None => DEFAULT_REQUEST_TIMEOUT,
                    },
                },
            ),
        },
    }
}

/// The address that requests of a kind go to over a protocol: the
/// configured address where there is one, else the derived one.
pub open spec fn request_url(config: ConfigView, api_type: GrauxApiType, protocol: Seq<char>) -> Seq<
    char,
> {
    match config.url {
        Some(url) => url,
        None => derived_url(config.network, config.api_key, api_type, protocol),
    }
}

/// The connection that a configuration gives for a kind of API over a
/// protocol.
pub open spec fn built_connection(
    config: ConfigView,
    api_type: GrauxApiType,
    protocol: Seq<char>,
    is_browser: bool,
) -> ConnectionView {
    ConnectionView {
        url: request_url(config, api_type, protocol),
        headers: sdk_headers(is_browser),
        allow_gzip: !is_browser,
    }
}

/// The provider that a configuration gives over a protocol.
pub open spec fn provider_for(config: ConfigView, protocol: Seq<char>) -> ProviderView {
    ProviderView {
        connection: built_connection(config, GrauxApiType::BASE, protocol, IS_BROWSER),
        api_key: config.api_key,
        max_retries: config.max_retries,
        batch_requests: config.batch_requests,
    }
}

/// A configured address is the address of every connection and of every
/// provider, whatever the network, the kind of API and the protocol.
pub proof fn lemma_override_wins(
    config: ConfigView,
    api_type: GrauxApiType,
    protocol: Seq<char>,
    is_browser: bool,
)
    requires
        config.url is Some,
    ensures
        request_url(config, api_type, protocol) == config.url->Some_0,
        built_connection(config, api_type, protocol, is_browser).url == config.url->Some_0,
        provider_for(config, protocol).connection.url == config.url->Some_0,
{
}

/// The value of an optional provider.
pub open spec fn optional_provider_view(p: Option<GrauxProvider>) -> Option<ProviderView> {
    match p {
        Some(provider) => Some(provider@),
        None => None,
    }
}

/// The settings of a client. They are fixed when the client is made; the
/// only thing that changes afterwards is that a provider handle, once made,
/// is kept.
#[derive(Debug)]
pub struct GrauxConfig {
    api_key: String,
    network: Network,
    max_retries: u32,
    batch_requests: bool,
    url: Option<String>,
    auth_token: Option<String>,
    request_timeout: u32,
    base_graux_provider: Option<GrauxProvider>,
    base_graux_wss_provider: Option<GrauxProvider>,
}

impl View for GrauxConfig {
    type V = ConfigView;

    closed spec fn view(&self) -> ConfigView {
        ConfigView {
            api_key: self.api_key@,
            network: self.network,
            max_retries: self.max_retries,
            batch_requests: self.batch_requests,
            url: optional_text(self.url),
            auth_token: optional_text(self.auth_token),
            request_timeout: self.request_timeout,
        }
    }
}

impl GrauxConfig {
    /// The HTTP provider handle, once it has been made.
    pub closed spec fn http_handle(&self) -> Option<ProviderView> {
        optional_provider_view(self.base_graux_provider)
    }

    /// The WebSocket provider handle, once it has been made.
    pub closed spec fn websocket_handle(&self) -> Option<ProviderView> {
        optional_provider_view(self.base_graux_wss_provider)
    }

    /// A handle that has been made is the provider that the settings give.
    #[verifier::type_invariant]
    spec fn well_formed(&self) -> bool {
        &&& self.http_handle() matches Some(p) ==> p == provider_for(self@, "http"@)
        &&& self.websocket_handle() matches Some(p) ==> p == provider_for(self@, "ws"@)
    }

    /// Resolves the user's settings: every given value is used as it is,
    /// every other takes its default. The only failure is a network name
    /// that names no network. No handle has been made yet.
    pub fn new(config: Option<GrauxSettings>) -> (r: Result<GrauxConfig, GrauxError>)
        ensures
            match resolved(optional_settings_view(config)) {
                Ok(c) => r is Ok && r->Ok_0@ == c && r->Ok_0.http_handle() is None
                    && r->Ok_0.websocket_handle() is None,
                Err(e) => r is Err && r->Err_0@ == e,
            },
    {
        match config {
            None => Ok(
                GrauxConfig {
                    api_key: DEFAULT_GRAUX_API_KEY.to_owned(),
                    network: DEFAULT_NETWORK,
                    max_retries: DEFAULT_MAX_RETRIES,
                    batch_requests: false,
                    url: None,
                    auth_token: None,
                    request_timeout: DEFAULT_REQUEST_TIMEOUT,
                    base_graux_provider: None,
                    base_graux_wss_provider: None,
                },
            ),
            Some(c) => {
                let network = match &c.network {
                    Some(name) => GrauxProvider::get_graux_network(Some(name.as_str())),
                    None => GrauxProvider::get_graux_network(None),
                };
                let network = match network {
                    Ok(n) => n,
                    Err(e) => {
                        return Err(e);
                    },
                };
                let api_key = match &c.api_key {
                    Some(key) => GrauxProvider::get_api_key(Some(key.as_str())),
                    None => GrauxProvider::get_api_key(None),
                };
                let max_retries = match c.max_retries {
                    Some(n) => n,
                    None => DEFAULT_MAX_RETRIES,
                };
                let batch_requests = match c.batch_requests {
                    Some(b) => b,
                    None => false,
                };
                let request_timeout = match c.request_timeout {
                    Some(t) => t,
                    None => DEFAULT_REQUEST_TIMEOUT,
                };
                Ok(
                    GrauxConfig {
                        api_key,
                        network,
                        max_retries,
                        batch_requests,
                        url: c.url,
                        auth_token: c.auth_token,
                        request_timeout,
                        base_graux_provider: None,
                        base_graux_wss_provider: None,
                    },
                )
            },
        }
    }

    /// The API key.
    pub fn api_key(&self) -> (r: &str)
        ensures
            r@ == self@.api_key,
    {
        self.api_key.as_str()
    }

    /// The network.
    pub fn network(&self) -> (r: Network)
        ensures
            r == self@.network,
    {
        self.network
    }

    /// How many times a failed request is sent again.
    pub fn max_retries(&self) -> (r: u32)
        ensures
            r == self@.max_retries,
    {
        self.max_retries
    }

    /// Whether calls are collected into batches.
    pub fn batch_requests(&self) -> (r: bool)
        ensures
            r == self@.batch_requests,
    {
        self.batch_requests
    }

    /// The address that replaces every derived one, if one was given.
    pub fn url(&self) -> (r: Option<&str>)
        ensures
            match self@.url {
                Some(u) => r is Some && r->Some_0@ == u,
                None => r is None,
            },
    {
        match &self.url {
            Some(u) => Some(u.as_str()),
            None => None,
        }
    }

    /// The token for the webhook API, if one was given.
    pub fn auth_token(&self) -> (r: Option<&str>)
        ensures
            match self@.auth_token {
                Some(t) => r is Some && r->Some_0@ == t,
                None => r is None,
            },
    {
        match &self.auth_token {
            Some(t) => Some(t.as_str()),
            None => None,
        }
    }

    /// The time a request may take, in milliseconds.
    pub fn request_timeout(&self) -> (r: u32)
        ensures
            r == self@.request_timeout,
    {
        self.request_timeout
    }

    /// The address that requests of a kind go to over HTTP. A configured
    /// address comes back as it is, whatever the kind.
    pub fn get_request_url(&self, api_type: GrauxApiType) -> (r: String)
        ensures
            r@ == request_url(self@, api_type, "http"@),
    {
        if let Some(url) = &self.url {
            url.clone()
        } else if api_type == GrauxApiType::NFT {
            get_graux_nft_http_url(self.network, self.api_key.as_str())
        } else if api_type == GrauxApiType::WEBHOOK {
            get_graux_webhook_http_url()
        } else {
            proof {
                lemma_http_is_not_ws();
            }
            get_graux_http_url(self.network, self.api_key.as_str())
        }
    }

    /// The connection for a kind of API over a protocol. A configured
    /// address is used as it is, whatever the network, the kind and the
    /// protocol; else there must be an address for the pair.
    pub fn build_connection(&self, api_type: GrauxApiType, protocol: &str) -> (r: ConnectionInfo)
        requires
            self@.url is Some || supported_pair(api_type, protocol@),
        ensures
            r@ == built_connection(self@, api_type, protocol@, IS_BROWSER),
            self@.url matches Some(url) ==> r@.url == url,
    {
        let url = if let Some(url) = &self.url {
            url.clone()
        } else if api_type == GrauxApiType::NFT {
            get_graux_nft_http_url(self.network, self.api_key.as_str())
        } else if api_type == GrauxApiType::WEBHOOK {
            get_graux_webhook_http_url()
        } else if same_text(protocol, "ws") {
            get_graux_ws_url(self.network, self.api_key.as_str())
        } else {
            get_graux_http_url(self.network, self.api_key.as_str())
        };
        ConnectionInfo {
            url,
            headers: GrauxProvider::get_sdk_headers(IS_BROWSER),
            allow_gzip: !IS_BROWSER,
        }
    }

    /// The HTTP provider of this client. The first call makes it and keeps
    /// it; every later call hands out the one that was kept. The settings
    /// do not change.
    pub fn get_provider(&mut self) -> (r: GrauxProvider)
        ensures
            final(self)@ == old(self)@,
            r@ == provider_for(old(self)@, "http"@),
            final(self).http_handle() == Some(r@),
            final(self).websocket_handle() == old(self).websocket_handle(),
            old(self).http_handle() matches Some(p) ==> r@ == p,
    {
        proof {
            use_type_invariant(&*self);
        }
        if let Some(provider) = &self.base_graux_provider {
            provider.clone()
        } else {
            let graux_provider = GrauxProvider::new(self);
            self.base_graux_provider = Some(graux_provider.clone());
            graux_provider
        }
    }

    /// The WebSocket provider of this client. The first call makes it and
    /// keeps it; every later call hands out the one that was kept. The
    /// settings do not change.
    pub fn get_websocket_provider(&mut self) -> (r: GrauxProvider)
        ensures
            final(self)@ == old(self)@,
            r@ == provider_for(old(self)@, "ws"@),
            final(self).websocket_handle() == Some(r@),
            final(self).http_handle() == old(self).http_handle(),
            old(self).websocket_handle() matches Some(p) ==> r@ == p,
    {
        proof {
            use_type_invariant(&*self);
        }
        if let Some(provider) = &self.base_graux_wss_provider {
            provider.clone()
        } else {
            let graux_wss_provider = GrauxProvider::new_websocket(self);
            self.base_graux_wss_provider = Some(graux_wss_provider.clone());
            graux_wss_provider
        }
    }
}

/// The names of the two protocols differ.
pub proof fn lemma_http_is_not_ws()
    ensures
        "http"@ != "ws"@,
{
    reveal_strlit("http");
    reveal_strlit("ws");
    assert("http"@.len() == 4 && "ws"@.len() == 2);
}

} // verus!
