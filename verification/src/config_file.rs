use vstd::prelude::*;
use vstd::string::StringExecFns;

verus! {

broadcast use vstd::string::group_string_axioms;

/// The networks the generator supports. Selection affects only address and
/// WIF encoding, which the wallet layer performs.
#[derive(Clone, Copy, Debug, PartialEq, Eq, Structural)]
pub enum Network {
    Signet,
    Testnet,
}

/// Run configuration. `receiving_desc` and `change_desc` are the operator's
/// funding-wallet descriptors; while either is empty the run stops early.
/// `dust_limit` is the value of every bump output and `fee_amount` the
/// absolute fee paid by every child transaction.
#[derive(Clone, Debug)]
pub struct ConfigFile {
    pub network: String,
    pub electrum_url: String,
    pub receiving_desc: String,
    pub change_desc: String,
    pub dust_limit: u64,
    pub fee_amount: u64,
}

impl ConfigFile {
    /// Decode the configured network name; only "signet" and "testnet" are accepted.
    pub fn get_network(&self) -> (r: Result<Network, String>)
        ensures
            self.network@ == "signet"@ ==> (r matches Ok(n) && n == Network::Signet),
            self.network@ == "testnet"@ ==> (r matches Ok(n) && n == Network::Testnet),
            self.network@ != "signet"@ && self.network@ != "testnet"@ ==> (r matches Err(m)
                && m@ == "Only signet supported for now"@),
    {
        proof {
            reveal_strlit("signet");
            reveal_strlit("testnet");
            assert("signet"@.len() == 6);
            assert("testnet"@.len() == 7);
        }
        if self.network == String::from_str("signet") {
            Ok(Network::Signet)
        } else if self.network == String::from_str("testnet") {
            Ok(Network::Testnet)
        } else {
            Err(String::from_str("Only signet supported for now"))
        }
    }

    /// True when at least one funding-wallet descriptor is still unset, the
    /// sentinel that makes the run stop before touching any wallet.
    pub fn missing_descriptors(&self) -> (r: bool)
        ensures
            r == (self.receiving_desc@.len() == 0 || self.change_desc@.len() == 0),
    {
        self.receiving_desc.as_str().is_empty() || self.change_desc.as_str().is_empty()
    }
}

/// The configuration written on first run: signet against a local Electrum
/// endpoint, no funding descriptors yet, 800 sat dust and 1200 sat fee.
pub fn default_config() -> (r: ConfigFile)
    ensures
        r.network@ == "signet"@,
        r.electrum_url@ == "tcp://127.0.0.1:50001"@,
        r.receiving_desc@ == ""@,
        r.change_desc@ == ""@,
        r.dust_limit == 800u64,
        r.fee_amount == 1200u64,
{
    ConfigFile {
        network: String::from_str("signet"),
        electrum_url: String::from_str("tcp://127.0.0.1:50001"),
        receiving_desc: String::from_str(""),
        change_desc: String::from_str(""),
        dust_limit: 800,
        fee_amount: 1200,
    }
}

} // verus!
