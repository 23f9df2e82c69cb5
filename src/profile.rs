use vstd::prelude::*;
use vstd::string::StringExecFns;

verus! {

/// The chain a wallet is bound to.
#[derive(Clone, Copy, Debug, PartialEq, Eq, Structural)]
pub enum Chain {
    Main,
    Test,
}

/// Everything that depends on which network a sync targets.
#[derive(Clone, Debug)]
pub struct NetworkProfile {
    /// URI of the light-wallet server.
    pub server_uri: String,
    /// Directory that holds the wallet engine's local state.
    pub data_dir: String,
    pub chain: Chain,
    /// Confirmations a note needs before it counts as spendable.
    pub min_confirmations: u32,
}

pub open spec fn testnet_server_uri() -> Seq<char> {
    "https://testnet.zec.rocks:443"@
}

pub open spec fn mainnet_server_uri() -> Seq<char> {
    "https://mainnet.lightwalletd.com:9067"@
}

pub open spec fn testnet_data_dir() -> Seq<char> {
    "zcash_data_testnet"@
}

pub open spec fn mainnet_data_dir() -> Seq<char> {
    "zcash_data_mainnet"@
}

/// The profile for the test network (`is_testnet`) or the main network.
pub open spec fn is_profile_for(p: NetworkProfile, is_testnet: bool) -> bool {
    if is_testnet {
        &&& p.server_uri@ == testnet_server_uri()
        &&& p.data_dir@ == testnet_data_dir()
        &&& p.chain == Chain::Test
        &&& p.min_confirmations == 3
    } else {
        &&& p.server_uri@ == mainnet_server_uri()
        &&& p.data_dir@ == mainnet_data_dir()
        &&& p.chain == Chain::Main
        &&& p.min_confirmations == 10
    }
}

/// Picks one of the two fixed network profiles.
pub fn select_profile(is_testnet: bool) -> (p: NetworkProfile)
    ensures
        is_profile_for(p, is_testnet),
{
    if is_testnet {
        NetworkProfile {
            server_uri: String::from_str("https://testnet.zec.rocks:443"),
            data_dir: String::from_str("zcash_data_testnet"),
            chain: Chain::Test,
            min_confirmations: 3,
        }
    } else {
        NetworkProfile {
            server_uri: String::from_str("https://mainnet.lightwalletd.com:9067"),
            data_dir: String::from_str("zcash_data_mainnet"),
            chain: Chain::Main,
            min_confirmations: 10,
        }
    }
}

/// Whatever the flag, the selected profile is one of exactly two fixed
/// profiles: the test one needs 3 confirmations, the main one 10, and the two
/// differ in server, directory and chain.
pub proof fn lemma_profile_is_fixed(is_testnet: bool, p: NetworkProfile)
    requires
        is_profile_for(p, is_testnet),
    ensures
        is_testnet ==> p.chain == Chain::Test && p.min_confirmations == 3,
        !is_testnet ==> p.chain == Chain::Main && p.min_confirmations == 10,
        p.min_confirmations > 0,
        forall|q: NetworkProfile| #[trigger] is_profile_for(q, is_testnet) ==> {
            &&& q.server_uri@ == p.server_uri@
            &&& q.data_dir@ == p.data_dir@
            &&& q.chain == p.chain
            &&& q.min_confirmations == p.min_confirmations
        },
        testnet_server_uri() != mainnet_server_uri(),
        testnet_data_dir() != mainnet_data_dir(),
{
    reveal_strlit("https://testnet.zec.rocks:443");
    reveal_strlit("https://mainnet.lightwalletd.com:9067");
    reveal_strlit("zcash_data_testnet");
    reveal_strlit("zcash_data_mainnet");
    assert(testnet_server_uri().len() != mainnet_server_uri().len());
    assert(testnet_data_dir()[13] != mainnet_data_dir()[13]);
}

} // verus!
