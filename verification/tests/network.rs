use graux_sdk::error::GrauxError;
use graux_sdk::network::{Network, DEFAULT_NETWORK};
use graux_sdk::provider::GrauxProvider;

fn all_networks() -> Vec<Network> {
    vec![Network::Mainnet, Network::Ropsten, Network::Rinkeby, Network::Goerli, Network::Kovan]
}

#[test]
fn every_supported_name_resolves() {
    assert_eq!(GrauxProvider::get_graux_network(Some("mainnet")), Ok(Network::Mainnet));
    assert_eq!(GrauxProvider::get_graux_network(Some("ropsten")), Ok(Network::Ropsten));
    assert_eq!(GrauxProvider::get_graux_network(Some("rinkeby")), Ok(Network::Rinkeby));
    assert_eq!(GrauxProvider::get_graux_network(Some("goerli")), Ok(Network::Goerli));
    assert_eq!(GrauxProvider::get_graux_network(Some("kovan")), Ok(Network::Kovan));
}

#[test]
fn every_network_is_found_under_its_name() {
    for network in all_networks() {
        assert_eq!(Network::from_name(network.name()), Some(network));
        assert_eq!(GrauxProvider::get_graux_network(Some(network.name())), Ok(network));
    }
}

#[test]
fn absent_name_is_the_default_network() {
    assert_eq!(GrauxProvider::get_graux_network(None), Ok(Network::Mainnet));
    assert_eq!(DEFAULT_NETWORK, Network::Mainnet);
}

#[test]
fn unknown_name_is_refused_with_the_name() {
    for name in ["sepolia", "Mainnet", "mainnet ", "main", "", "kovan2", "\u{e9}th"] {
        assert_eq!(
            GrauxProvider::get_graux_network(Some(name)),
            Err(GrauxError::InvalidNetwork(name.to_string()))
        );
        assert_eq!(Network::from_name(name), None);
    }
}

#[test]
fn chain_ids_and_hosts() {
    assert_eq!(Network::Mainnet.chain_id(), 1);
    assert_eq!(Network::Ropsten.chain_id(), 3);
    assert_eq!(Network::Rinkeby.chain_id(), 4);
    assert_eq!(Network::Goerli.chain_id(), 5);
    assert_eq!(Network::Kovan.chain_id(), 42);
    assert_eq!(Network::Mainnet.host(), "eth-mainnet");
    assert_eq!(Network::Kovan.host(), "eth-kovan");
}

#[test]
fn api_key_defaults() {
    assert_eq!(GrauxProvider::get_api_key(None), "demo");
    assert_eq!(GrauxProvider::get_api_key(Some("k-123")), "k-123");
    assert_eq!(GrauxProvider::get_api_key(Some("")), "");
}
