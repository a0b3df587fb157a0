//! Endpoint addresses: one template per kind of API, filled in with the
//! network and the API key.

use crate::network::{host_text, Network};
use vstd::prelude::*;
use vstd::string::StringExecFns;

verus! {

/// The kind of API an endpoint serves.
#[derive(Clone, Copy, Debug, PartialEq, Eq, Structural)]
pub enum GrauxApiType {
    BASE,
    NFT,
    WEBHOOK,
}

/// The address of the node API over HTTP.
pub open spec fn http_url(network: Network, api_key: Seq<char>) -> Seq<char> {
    "https://"@ + host_text(network) + ".g.graux.com/v2/"@ + api_key
}

/// The address of the node API over WebSocket.
pub open spec fn ws_url(network: Network, api_key: Seq<char>) -> Seq<char> {
    "wss://"@ + host_text(network) + ".g.graux.com/v2/"@ + api_key
}

/// The address of the NFT API.
pub open spec fn nft_http_url(network: Network, api_key: Seq<char>) -> Seq<char> {
    "https://"@ + host_text(network) + ".g.graux.com/nft/v2/"@ + api_key
}

/// The address of the webhook API, the same for every network and key.
pub open spec fn webhook_http_url() -> Seq<char> {
    "https://dashboard.graux.com/api"@
}

/// Whether `protocol` is one of the two the client speaks.
pub open spec fn known_protocol(protocol: Seq<char>) -> bool {
    protocol == "http"@ || protocol == "ws"@
}

/// Whether there is an address for this kind of API over this protocol:
/// every kind is served over HTTP, only the node API over WebSocket.
pub open spec fn supported_pair(api_type: GrauxApiType, protocol: Seq<char>) -> bool {
    protocol == "http"@ || (protocol == "ws"@ && api_type == GrauxApiType::BASE)
}

/// The address derived for a kind of API over a protocol.
pub open spec fn derived_url(
    network: Network,
    api_key: Seq<char>,
    api_type: GrauxApiType,
    protocol: Seq<char>,
) -> Seq<char> {
    match api_type {
        GrauxApiType::NFT => nft_http_url(network, api_key),
        GrauxApiType::WEBHOOK => webhook_http_url(),
        GrauxApiType::BASE => if protocol == "ws"@ {
            ws_url(network, api_key)
        } else {
            http_url(network, api_key)
        },
    }
}

/// `scheme`, the network's host label, `path` and `api_key`, joined.
fn join_url(scheme: &str, network: Network, path: &str, api_key: &str) -> (r: String)
    ensures
        r@ == scheme@ + host_text(network) + path@ + api_key@,
{
    let mut url = String::from_str(scheme);
    url.append(network.host());
    url.append(path);
    url.append(api_key);
    url
}

/// The address of the node API over HTTP.
pub fn get_graux_http_url(network: Network, api_key: &str) -> (r: String)
    ensures
        r@ == http_url(network, api_key@),
{
    join_url("https://", network, ".g.graux.com/v2/", api_key)
}

/// The address of the node API over WebSocket.
pub fn get_graux_ws_url(network: Network, api_key: &str) -> (r: String)
    ensures
        r@ == ws_url(network, api_key@),
{
    join_url("wss://", network, ".g.graux.com/v2/", api_key)
}

/// The address of the NFT API.
pub fn get_graux_nft_http_url(network: Network, api_key: &str) -> (r: String)
    ensures
        r@ == nft_http_url(network, api_key@),
{
    join_url("https://", network, ".g.graux.com/nft/v2/", api_key)
}

/// The address of the webhook API.
pub fn get_graux_webhook_http_url() -> (r: String)
    ensures
        r@ == webhook_http_url(),
{
    String::from_str("https://dashboard.graux.com/api")
}

} // verus!
