//! What a run is configured with.

use vstd::prelude::*;
use vstd::string::StringExecFns;
use crate::amount::{coins_to_units, UNITS_PER_COIN};
use crate::script::Network;

verus! {

/// The settings of a run. They are handed to each step; nothing is global.
#[derive(Clone, Debug)]
pub struct Config {
    /// The base URL of the node's RPC endpoint.
    pub rpc_url: String,
    /// The credential pair for basic authentication.
    pub rpc_user: String,
    pub rpc_password: String,
    /// The wallet that mines and pays.
    pub funded_wallet: String,
    /// The wallet that is paid.
    pub receiving_wallet: String,
    /// The amount to transfer, in whole coins.
    pub transfer_coins: u64,
    /// The network that addresses are decoded for.
    pub network: Network,
    /// The number of blocks that must follow a block before its reward can
    /// be spent.
    pub maturity_window: u32,
}

impl Config {
    /// The settings for a regression-test node on this machine.
    pub fn local_regtest() -> (config: Config)
        ensures
            config.rpc_url@ == "http://127.0.0.1:18443"@,
            config.rpc_user@ == "alice"@,
            config.rpc_password@ == "password"@,
            config.funded_wallet@ == "Miner"@,
            config.receiving_wallet@ == "Trader"@,
            config.transfer_coins == 20,
            config.network == Network::Regtest,
            config.maturity_window == 100,
    {
        Config {
            rpc_url: "http://127.0.0.1:18443".to_owned(),
            rpc_user: "alice".to_owned(),
            rpc_password: "password".to_owned(),
            funded_wallet: "Miner".to_owned(),
            receiving_wallet: "Trader".to_owned(),
            transfer_coins: 20,
            network: Network::Regtest,
            maturity_window: 100,
        }
    }

    /// The endpoint of one wallet: the base URL, the path segment
    /// `/wallet/`, and the wallet's name.
    pub fn wallet_url(&self, wallet: &String) -> (url: String)
        ensures
            url@ == self.rpc_url@ + "/wallet/"@ + wallet@,
    {
        let mut url = self.rpc_url.clone();
        url.append("/wallet/");
        url.append(wallet.as_str());
        url
    }

    /// The amount to transfer in smallest units, if it fits.
    pub fn transfer_units(&self) -> (units: Option<u64>)
        ensures
            self.transfer_coins * UNITS_PER_COIN <= u64::MAX ==> units == Some(
                (self.transfer_coins * UNITS_PER_COIN) as u64,
            ),
            self.transfer_coins * UNITS_PER_COIN > u64::MAX ==> units is None,
    {
        coins_to_units(self.transfer_coins)
    }

    /// The number of blocks to mine, starting from none, until a reward can
    /// be spent for the first time: one more than the maturity window.
    pub fn blocks_to_first_spend(&self) -> (blocks: u64)
        ensures
            blocks == self.maturity_window + 1,
    {
        self.maturity_window as u64 + 1
    }
}

} // verus!
