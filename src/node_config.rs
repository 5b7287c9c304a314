//! Settings of a relay that follows one of several networks' nodes, and the
//! addresses of a node's event streams.
use vstd::prelude::*;

use crate::outbound::{SSE_API_DEPLOYS_PATH, SSE_API_MAIN_PATH, SSE_API_SIGNATURES_PATH};
use crate::text::{decimal, push_decimal};

verus! {

/// The network whose node is followed.
#[derive(Clone, Copy, Debug, PartialEq, Eq, Structural)]
pub enum Network {
    Mainnet,
    Testnet,
    Local,
}

impl Network {
    pub open spec fn name(self) -> Seq<char> {
        match self {
            Network::Mainnet => "mainnet"@,
            Network::Testnet => "testnet"@,
            Network::Local => "local"@,
        }
    }

    /// The network's name.
    pub fn as_str(&self) -> (r: &'static str)
        ensures
            r@ == self.name(),
    {
        match self {
            Network::Mainnet => "mainnet",
            Network::Testnet => "testnet",
            Network::Local => "local",
        }
    }
}

/// All settings of the relay.
pub struct Config {
    pub connection: ConnectionConfig,
    pub storage: StorageConfig,
    pub rest_server: ServerConfig,
    pub ws_server: ServerConfig,
}

/// Settings of a server the relay runs.
pub struct ServerConfig {
    pub run: bool,
    pub port: u16,
}

/// Where the relay keeps its data.
pub struct StorageConfig {
    pub db_path: String,
    pub kv_path: String,
}

/// Which node the relay follows and which of its streams.
pub struct ConnectionConfig {
    pub network: Network,
    pub node: Node,
    pub sse_filter: String,
}

/// One node per network.
pub struct Node {
    pub testnet: NodeConfig,
    pub mainnet: NodeConfig,
    pub local: NodeConfig,
}

/// Where a node listens.
pub struct NodeConfig {
    pub ip_address: String,
    pub sse_port: u16,
    pub rpc_port: u16,
}

impl Node {
    /// The node of `network`.
    pub fn for_network(&self, network: Network) -> (r: &NodeConfig)
        ensures
            *r == match network {
                Network::Mainnet => self.mainnet,
                Network::Testnet => self.testnet,
                Network::Local => self.local,
            },
    {
        match network {
            Network::Mainnet => &self.mainnet,
            Network::Testnet => &self.testnet,
            Network::Local => &self.local,
        }
    }
}

/// The base URL of a node's event streams.
pub open spec fn events_url(node: NodeConfig) -> Seq<char> {
    "http://"@ + node.ip_address@ + ":"@ + decimal(node.sse_port as nat) + "/events"@
}

/// The base URL of a node's event streams: `http://<ip>:<port>/events`.
pub fn events_url_base(node: &NodeConfig) -> (r: String)
    ensures
        r@ == events_url(*node),
{
    let mut url = "http://".to_owned();
    url.append(node.ip_address.as_str());
    url.append(":");
    push_decimal(&mut url, node.sse_port as u64);
    url.append("/events");
    url
}

/// The URLs of a node's three event streams, from the base URL: main,
/// deploys, signatures.
pub fn stream_urls(base: &String) -> (r: (String, String, String))
    ensures
        r.0@ == base@ + "/"@ + SSE_API_MAIN_PATH@,
        r.1@ == base@ + "/"@ + SSE_API_DEPLOYS_PATH@,
        r.2@ == base@ + "/"@ + SSE_API_SIGNATURES_PATH@,
{
    let mut main = base.clone();
    main.append("/");
    main.append(SSE_API_MAIN_PATH);
    let mut deploys = base.clone();
    deploys.append("/");
    deploys.append(SSE_API_DEPLOYS_PATH);
    let mut sigs = base.clone();
    sigs.append("/");
    sigs.append(SSE_API_SIGNATURES_PATH);
    (main, deploys, sigs)
}

} // verus!
