//! Requests that move funds, and what the node's answers mean.

use vstd::prelude::*;
use crate::error::Error;

verus! {

/// The number of whole coins that a send request asks for.
pub const SEND_COINS: u64 = 100;

/// Someone to pay, and how many whole coins.
#[derive(Clone, Debug)]
pub struct Recipient {
    pub address: String,
    pub coins: u64,
}

/// One positional argument of a request.
#[derive(Clone, Debug)]
pub enum RpcParam {
    /// Left to the node's default.
    Null,
    /// The recipients of a payment.
    Recipients(Vec<Recipient>),
}

/// A named procedure call with positional arguments.
#[derive(Clone, Debug)]
pub struct RpcRequest {
    pub method: String,
    pub params: Vec<RpcParam>,
}

/// The name of the send procedure.
pub open spec fn send_method() -> Seq<char> {
    "send"@
}

/// Whether `request` is the send request for `address`: the method `send`
/// with five arguments, the first a single recipient at `address` for
/// `SEND_COINS` coins, the others (confirmation target, estimate mode, fee
/// rate, options) left to the node.
pub open spec fn is_send_request(request: RpcRequest, address: Seq<char>) -> bool {
    &&& request.method@ == send_method()
    &&& request.params@.len() == 5
    &&& request.params@[0] matches RpcParam::Recipients(list)
    &&& list@.len() == 1
    &&& list@[0].address@ == address
    &&& list@[0].coins == SEND_COINS
    &&& forall|i: int| 1 <= i < 5 ==> request.params@[i] is Null
}

/// Builds the send request that pays `address`.
pub fn send_request(address: &String) -> (request: RpcRequest)
    ensures
        is_send_request(request, address@),
{
    let mut recipients: Vec<Recipient> = Vec::new();
    recipients.push(Recipient { address: address.clone(), coins: SEND_COINS });
    let mut params: Vec<RpcParam> = Vec::new();
    params.push(RpcParam::Recipients(recipients));
    params.push(RpcParam::Null);
    params.push(RpcParam::Null);
    params.push(RpcParam::Null);
    params.push(RpcParam::Null);
    RpcRequest { method: "send".to_owned(), params }
}

/// The node's answer to a send request.
#[derive(Clone, Debug)]
pub struct SendResult {
    pub complete: bool,
    pub txid: String,
}

/// Reads the node's answer to a send request: the transaction id if the
/// node completed the send, otherwise the failure `SendIncomplete`.
pub fn accept_send_result(result: SendResult) -> (r: Result<String, Error>)
    ensures
        result.complete ==> r == Ok::<String, Error>(result.txid),
        !result.complete ==> r == Err::<String, Error>(Error::SendIncomplete),
{
    if result.complete {
        Ok(result.txid)
    } else {
        Err(Error::SendIncomplete)
    }
}

} // verus!
