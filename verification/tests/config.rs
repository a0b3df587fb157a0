use graux_sdk::config::{
    GrauxConfig, GrauxSettings, DEFAULT_GRAUX_API_KEY, DEFAULT_MAX_RETRIES,
    DEFAULT_REQUEST_TIMEOUT,
};
use graux_sdk::endpoint::{
    get_graux_http_url, get_graux_nft_http_url, get_graux_webhook_http_url, get_graux_ws_url,
    GrauxApiType,
};
use graux_sdk::error::GrauxError;
use graux_sdk::network::Network;
use graux_sdk::provider::{GrauxProvider, IS_BROWSER, VERSION};

fn empty_settings() -> GrauxSettings {
    GrauxSettings {
        api_key: None,
        network: None,
        max_retries: None,
        batch_requests: None,
        url: None,
        auth_token: None,
        request_timeout: None,
    }
}

fn full_settings() -> GrauxSettings {
    GrauxSettings {
        api_key: Some("secret-key".to_string()),
        network: Some("goerli".to_string()),
        max_retries: Some(2),
        batch_requests: Some(true),
        url: None,
        auth_token: Some("token".to_string()),
        request_timeout: Some(1500),
    }
}

fn sdk_headers() -> Vec<(String, String)> {
    vec![
        ("Graux-Ethers-Sdk-Version".to_string(), VERSION.to_string()),
        ("Accept-Encoding".to_string(), "gzip".to_string()),
    ]
}

#[test]
fn no_settings_give_the_defaults() {
    let config = GrauxConfig::new(None).unwrap();
    assert_eq!(config.api_key(), DEFAULT_GRAUX_API_KEY);
    assert_eq!(config.api_key(), "demo");
    assert_eq!(config.network(), Network::Mainnet);
    assert_eq!(config.max_retries(), DEFAULT_MAX_RETRIES);
    assert_eq!(config.max_retries(), 5);
    assert!(!config.batch_requests());
    assert_eq!(config.url(), None);
    assert_eq!(config.auth_token(), None);
    assert_eq!(config.request_timeout(), DEFAULT_REQUEST_TIMEOUT);
    assert_eq!(config.request_timeout(), 30000);
}

#[test]
fn empty_settings_give_the_defaults() {
    let config = GrauxConfig::new(Some(empty_settings())).unwrap();
    assert_eq!(config.api_key(), "demo");
    assert_eq!(config.network(), Network::Mainnet);
    assert_eq!(config.max_retries(), 5);
    assert!(!config.batch_requests());
    assert_eq!(config.url(), None);
    assert_eq!(config.request_timeout(), 30000);
}

#[test]
fn given_settings_are_used_as_they_are() {
    let config = GrauxConfig::new(Some(full_settings())).unwrap();
    assert_eq!(config.api_key(), "secret-key");
    assert_eq!(config.network(), Network::Goerli);
    assert_eq!(config.max_retries(), 2);
    assert!(config.batch_requests());
    assert_eq!(config.auth_token(), Some("token"));
    assert_eq!(config.request_timeout(), 1500);
}

#[test]
fn invalid_network_name_fails() {
    let mut settings = full_settings();
    settings.network = Some("moonbase".to_string());
    assert_eq!(
        GrauxConfig::new(Some(settings)).err(),
        Some(GrauxError::InvalidNetwork("moonbase".to_string()))
    );
}

#[test]
fn url_templates() {
    assert_eq!(
        get_graux_http_url(Network::Mainnet, "demo"),
        "https://eth-mainnet.g.graux.com/v2/demo"
    );
    assert_eq!(get_graux_ws_url(Network::Goerli, "k"), "wss://eth-goerli.g.graux.com/v2/k");
    assert_eq!(
        get_graux_nft_http_url(Network::Kovan, "abc"),
        "https://eth-kovan.g.graux.com/nft/v2/abc"
    );
    assert_eq!(get_graux_webhook_http_url(), "https://dashboard.graux.com/api");
}

#[test]
fn request_url_by_category() {
    let config = GrauxConfig::new(Some(full_settings())).unwrap();
    assert_eq!(
        config.get_request_url(GrauxApiType::BASE),
        "https://eth-goerli.g.graux.com/v2/secret-key"
    );
    assert_eq!(
        config.get_request_url(GrauxApiType::NFT),
        "https://eth-goerli.g.graux.com/nft/v2/secret-key"
    );
    assert_eq!(config.get_request_url(GrauxApiType::WEBHOOK), "https://dashboard.graux.com/api");
}

#[test]
fn url_override_wins_everywhere() {
    for network in ["mainnet", "ropsten", "rinkeby", "goerli", "kovan"] {
        let mut settings = full_settings();
        settings.network = Some(network.to_string());
        settings.url = Some("http://localhost:8545/rpc".to_string());
        let mut config = GrauxConfig::new(Some(settings)).unwrap();
        for api_type in [GrauxApiType::BASE, GrauxApiType::NFT, GrauxApiType::WEBHOOK] {
            assert_eq!(config.get_request_url(api_type), "http://localhost:8545/rpc");
            for protocol in ["http", "ws", "ipc"] {
                let connection = config.build_connection(api_type, protocol);
                assert_eq!(connection.url, "http://localhost:8545/rpc");
            }
        }
        assert_eq!(config.get_provider().connection().url, "http://localhost:8545/rpc");
        assert_eq!(config.get_websocket_provider().connection().url, "http://localhost:8545/rpc");
    }
}

#[test]
fn connection_info_for_both_protocols() {
    let http = GrauxProvider::get_graux_connection_info(&Network::Rinkeby, "key", "http");
    assert_eq!(http.url, "https://eth-rinkeby.g.graux.com/v2/key");
    assert_eq!(http.headers, sdk_headers());
    assert!(http.allow_gzip);
    let ws = GrauxProvider::get_graux_connection_info(&Network::Rinkeby, "key", "ws");
    assert_eq!(ws.url, "wss://eth-rinkeby.g.graux.com/v2/key");
    assert_eq!(ws.headers, sdk_headers());
    assert!(ws.allow_gzip);
}

#[test]
fn headers_depend_on_the_runtime() {
    assert!(!IS_BROWSER);
    assert_eq!(GrauxProvider::get_sdk_headers(false), sdk_headers());
    assert_eq!(
        GrauxProvider::get_sdk_headers(true),
        vec![("Graux-Ethers-Sdk-Version".to_string(), VERSION.to_string())]
    );
}

#[test]
fn build_connection_without_override() {
    let config = GrauxConfig::new(Some(full_settings())).unwrap();
    let base = config.build_connection(GrauxApiType::BASE, "http");
    assert_eq!(base.url, "https://eth-goerli.g.graux.com/v2/secret-key");
    assert_eq!(base.headers, sdk_headers());
    assert!(base.allow_gzip);
    let ws = config.build_connection(GrauxApiType::BASE, "ws");
    assert_eq!(ws.url, "wss://eth-goerli.g.graux.com/v2/secret-key");
    let nft = config.build_connection(GrauxApiType::NFT, "http");
    assert_eq!(nft.url, "https://eth-goerli.g.graux.com/nft/v2/secret-key");
    let webhook = config.build_connection(GrauxApiType::WEBHOOK, "http");
    assert_eq!(webhook.url, "https://dashboard.graux.com/api");
}

#[test]
fn provider_takes_over_the_settings() {
    let config = GrauxConfig::new(Some(full_settings())).unwrap();
    let provider = GrauxProvider::new(&config);
    assert_eq!(provider.api_key(), "secret-key");
    assert_eq!(provider.max_retries(), 2);
    assert!(provider.batch_requests());
    assert_eq!(provider.connection().url, "https://eth-goerli.g.graux.com/v2/secret-key");
    assert_eq!(provider.connection().headers, sdk_headers());
    let wss = GrauxProvider::new_websocket(&config);
    assert_eq!(wss.connection().url, "wss://eth-goerli.g.graux.com/v2/secret-key");
    assert_eq!(wss.max_retries(), 2);
}

#[test]
fn provider_handles_are_made_once() {
    let mut config = GrauxConfig::new(Some(full_settings())).unwrap();
    let first = config.get_provider();
    let second = config.get_provider();
    assert_eq!(first, second);
    assert_eq!(first, GrauxProvider::new(&config));
    let ws_first = config.get_websocket_provider();
    let ws_second = config.get_websocket_provider();
    assert_eq!(ws_first, ws_second);
    assert_eq!(ws_first, GrauxProvider::new_websocket(&config));
    assert_ne!(first, ws_first);
    assert_eq!(config.get_provider(), first);
    assert_eq!(config.api_key(), "secret-key");
    assert_eq!(config.network(), Network::Goerli);
}
