//! The failures that end a run.

use vstd::prelude::*;

verus! {

/// Why a step of the run could not go on. None of these is retried.
#[derive(Clone, Copy, Debug, PartialEq, Eq, Structural)]
pub enum Error {
    /// The node answered a send request without completing it.
    SendIncomplete,
    /// The transaction has no input whose origin could be followed.
    NoInputs,
    /// The first input names an output index that the previous transaction
    /// does not have.
    PrevOutputOutOfRange,
    /// More than one decodable output pays an address other than the
    /// receiver, so which of them is the change cannot be told.
    AmbiguousChange,
    /// The wallet's view of the transaction carries no fee.
    MissingFee,
    /// The wallet's view of the transaction carries no block height.
    MissingBlockHeight,
    /// The wallet's view of the transaction carries no block hash.
    MissingBlockHash,
}

} // verus!
