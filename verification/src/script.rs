//! Output scripts and the addresses they pay to.

use vstd::prelude::*;

verus! {

/// The network an address is valid for.
#[derive(Clone, Copy, Debug, PartialEq, Eq, Structural)]
pub enum Network {
    Bitcoin,
    Testnet,
    Testnet4,
    Signet,
    Regtest,
}

/// The first byte of a data-carrier script.
pub const OP_RETURN: u8 = 0x6a;

/// The address that an output script pays to on a network, as the text that
/// `bitcoin::Address::from_script` followed by `to_string` produces, or
/// `None` where the script is none of the standard pay-to-address forms.
pub uninterp spec fn script_address(script: Seq<u8>, network: Network) -> Option<Seq<char>>;

/// A script that starts with `OP_RETURN` carries data and pays nobody.
pub open spec fn is_data_carrier(script: Seq<u8>) -> bool {
    script.len() > 0 && script[0] == OP_RETURN
}

/// What decoding a script gave: an address, or the explicit marker that the
/// script is not a standard pay-to-address form.
#[derive(Clone, Debug)]
pub enum Party {
    Address(String),
    Undecodable,
}

impl Party {
    /// The address as text, if there is one.
    pub open spec fn view(&self) -> Option<Seq<char>> {
        match self {
            Party::Address(a) => Some(a@),
            Party::Undecodable => None,
        }
    }
}

/// Calls `bitcoin::Address::from_script` on the script bytes and renders the
/// address with its `Display` impl. Trusted: the result is the named
/// `script_address` of the same bytes and network, and a script whose first
/// byte is `OP_RETURN` never decodes, since it is neither P2PKH, P2SH nor a
/// witness program.
#[verifier::external_body]
fn decode_with_bitcoin(script: &Vec<u8>, network: Network) -> (r: Option<String>)
    ensures
        r matches Some(a) ==> script_address(script@, network) == Some(a@),
        r is None ==> script_address(script@, network) is None,
        is_data_carrier(script@) ==> r is None,
{
    let net = match network {
        Network::Bitcoin => bitcoin::Network::Bitcoin,
        Network::Testnet => bitcoin::Network::Testnet,
        Network::Testnet4 => bitcoin::Network::Testnet4,
        Network::Signet => bitcoin::Network::Signet,
        Network::Regtest => bitcoin::Network::Regtest,
    };
    let script = bitcoin::ScriptBuf::from_bytes(script.clone());
    match bitcoin::Address::from_script(&script, net) {
        Ok(address) => Some(address.to_string()),
        Err(_) => None,
    }
}

/// Decodes an output script into the party it pays on `network`. A script
/// that is no standard pay-to-address form gives `Party::Undecodable`; that
/// is an outcome, not a failure.
pub fn resolve_party(script: &Vec<u8>, network: Network) -> (party: Party)
    ensures
        party@ == script_address(script@, network),
        is_data_carrier(script@) ==> party is Undecodable,
{
    match decode_with_bitcoin(script, network) {
        Some(address) => Party::Address(address),
        None => Party::Undecodable,
    }
}

} // verus!
