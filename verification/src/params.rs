//! Network selection and the read-only configuration shared by all attempts.

use vstd::prelude::*;

use crate::wire::MAX_USER_AGENT_LEN;

verus! {

/// Default peer-to-peer port of the main network.
pub const PORT_MAINNET: u16 = 8333;

/// Default peer-to-peer port of the test network.
pub const PORT_TESTNET: u16 = 18333;

/// Magic bytes opening every main-network message envelope.
pub const MAGIC_MAINNET: u32 = 0xD9B4BEF9;

/// Magic bytes opening every test-network message envelope.
pub const MAGIC_TESTNET: u32 = 0x0709110B;

/// The peer-to-peer protocol version this node announces.
pub const PROTOCOL_VERSION: u32 = 70001;

/// Which Bitcoin network a run talks to.
#[derive(Clone, Copy, Debug, PartialEq, Eq, Structural)]
pub enum Network {
    Mainnet,
    Testnet,
}

/// The envelope magic of `network`.
pub open spec fn spec_magic_of(network: Network) -> u32 {
    match network {
        Network::Mainnet => MAGIC_MAINNET,
        Network::Testnet => MAGIC_TESTNET,
    }
}

/// The default peer port of `network`.
pub open spec fn spec_port_of(network: Network) -> u16 {
    match network {
        Network::Mainnet => PORT_MAINNET,
        Network::Testnet => PORT_TESTNET,
    }
}

/// Read-only configuration shared by every concurrent handshake attempt.
/// It is never mutated after construction; attempts only read it.
#[derive(Clone, Debug, PartialEq, Eq)]
pub struct NetworkParameters {
    /// Magic bytes selecting the network, first field of every envelope.
    pub magic: u32,
    /// Protocol version announced in our `version` message.
    pub protocol_version: u32,
    /// Service-flag bitmask announced in our `version` message.
    pub services: u64,
    /// User-agent string announced in our `version` message.
    pub user_agent: String,
}

impl NetworkParameters {
    /// The configuration for `network`: that network's magic, the protocol
    /// version above, no advertised services, and this tool's user agent,
    /// which stays under the wire boundary's user-agent cap.
    pub fn for_network(network: Network) -> (r: NetworkParameters)
        ensures
            r.magic == spec_magic_of(network),
            r.protocol_version == PROTOCOL_VERSION,
            r.services == 0,
            r.user_agent@ == "/peer-handshake:0.1.0/"@,
            r.user_agent@.len() <= MAX_USER_AGENT_LEN,
    {
        proof {
            reveal_strlit("/peer-handshake:0.1.0/");
        }
        let magic: u32 = match network {
            Network::Mainnet => MAGIC_MAINNET,
            Network::Testnet => MAGIC_TESTNET,
        };
        NetworkParameters {
            magic,
            protocol_version: PROTOCOL_VERSION,
            services: 0,
            user_agent: "/peer-handshake:0.1.0/".to_owned(),
        }
    }
}

/// The default peer port of `network`.
pub fn default_port(network: Network) -> (r: u16)
    ensures
        r == spec_port_of(network),
{
    match network {
        Network::Mainnet => PORT_MAINNET,
        Network::Testnet => PORT_TESTNET,
    }
}

} // verus!
