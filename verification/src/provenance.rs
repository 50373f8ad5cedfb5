//! Recovering who paid whom from a confirmed transaction.
//!
//! The node labels nothing: the sender is found by following the first
//! input back to the output it spends, the receiver and the change by
//! decoding every output script and comparing with the known receiver
//! address, fee and confirmation from the wallet's own view.

use vstd::prelude::*;
use crate::error::Error;
use crate::script::{Network, Party, script_address, is_data_carrier, resolve_party};

verus! {

/// A reference to an output of an earlier transaction.
#[derive(Clone, Debug)]
pub struct OutPoint {
    pub txid: String,
    pub vout: u32,
}

/// An output as the raw transaction holds it: an amount in the smallest
/// unit and the script that locks it.
#[derive(Clone, Debug)]
pub struct TxOutput {
    pub value: u64,
    pub script: Vec<u8>,
}

/// The input and output structure of a transaction.
#[derive(Clone, Debug)]
pub struct RawTransaction {
    pub inputs: Vec<OutPoint>,
    pub outputs: Vec<TxOutput>,
}

/// The wallet's view of a transaction: what the raw form does not tell.
/// The fee is signed as the wallet reports it (negative for money sent).
#[derive(Clone, Debug)]
pub struct WalletView {
    pub txid: String,
    pub fee: Option<i64>,
    pub block_height: Option<u32>,
    pub block_hash: Option<String>,
}

/// The mathematical content of a `WalletView`.
pub ghost struct WalletFacts {
    pub txid: Seq<char>,
    pub fee: Option<int>,
    pub block_height: Option<nat>,
    pub block_hash: Option<Seq<char>>,
}

impl View for WalletView {
    type V = WalletFacts;

    open spec fn view(&self) -> WalletFacts {
        WalletFacts {
            txid: self.txid@,
            fee: match self.fee {
                Some(f) => Some(f as int),
                None => None,
            },
            block_height: match self.block_height {
                Some(h) => Some(h as nat),
                None => None,
            },
            block_hash: match self.block_hash {
                Some(h) => Some(h@),
                None => None,
            },
        }
    }
}

/// An output after its script was decoded.
#[derive(Clone, Debug)]
pub struct DecodedOutput {
    pub value: u64,
    pub party: Party,
}

/// The mathematical content of a `DecodedOutput`: an amount and the address
/// it goes to, if the script names one.
pub ghost struct Payee {
    pub value: nat,
    pub address: Option<Seq<char>>,
}

impl View for DecodedOutput {
    type V = Payee;

    open spec fn view(&self) -> Payee {
        Payee { value: self.value as nat, address: self.party@ }
    }
}

/// The views of a run of decoded outputs, in order.
pub open spec fn payees(outputs: Seq<DecodedOutput>) -> Seq<Payee> {
    outputs.map_values(|o: DecodedOutput| o@)
}

/// What the node's decoding makes of raw outputs on a network.
pub open spec fn decoded_payees(outputs: Seq<TxOutput>, network: Network) -> Seq<Payee> {
    Seq::new(
        outputs.len(),
        |i: int| Payee {
            value: outputs[i].value as nat,
            address: script_address(outputs[i].script@, network),
        },
    )
}

/// The part an output plays in a transfer.
#[derive(Clone, Copy, Debug, PartialEq, Eq, Structural)]
pub enum OutputRole {
    /// It pays the known receiver.
    Payment,
    /// It pays some other address: money that returns to the sender.
    Change,
    /// Its script names no address.
    Unrecognized,
}

/// The role of an output that pays `address`, seen from `receiver`.
/// Addresses match only if they are the same text, character by character.
pub open spec fn role_of(address: Option<Seq<char>>, receiver: Seq<char>) -> OutputRole {
    match address {
        None => OutputRole::Unrecognized,
        Some(a) => if a == receiver {
            OutputRole::Payment
        } else {
            OutputRole::Change
        },
    }
}

/// Classifies one decoded output against the receiver's address.
pub fn classify_output(party: &Party, receiver: &String) -> (role: OutputRole)
    ensures
        role == role_of(party@, receiver@),
{
    match party {
        Party::Undecodable => OutputRole::Unrecognized,
        Party::Address(a) => if *a == *receiver {
            OutputRole::Payment
        } else {
            OutputRole::Change
        },
    }
}

/// How many of the outputs play `role`.
pub open spec fn count_role(outs: Seq<Payee>, receiver: Seq<char>, role: OutputRole) -> nat
    decreases outs.len(),
{
    if outs.len() == 0 {
        0
    } else {
        let rest = count_role(outs.drop_last(), receiver, role);
        if role_of(outs.last().address, receiver) == role {
            rest + 1
        } else {
            rest
        }
    }
}

/// The last output that plays `role`, if any does.
pub open spec fn last_with_role(outs: Seq<Payee>, receiver: Seq<char>, role: OutputRole) -> Option<
    Payee,
>
    decreases outs.len(),
{
    if outs.len() == 0 {
        None
    } else if role_of(outs.last().address, receiver) == role {
        Some(outs.last())
    } else {
        last_with_role(outs.drop_last(), receiver, role)
    }
}

/// The change cannot be told when two or more outputs could be it.
pub open spec fn ambiguous(outs: Seq<Payee>, receiver: Seq<char>) -> bool {
    count_role(outs, receiver, OutputRole::Change) > 1
}

/// What the outputs of a transfer amount to.
#[derive(Clone, Debug)]
pub struct OutputSummary {
    pub receiver_amount: u64,
    pub change_address: Option<String>,
    pub change_amount: u64,
}

/// The mathematical content of an `OutputSummary`.
pub ghost struct SummaryView {
    pub receiver_amount: nat,
    pub change_address: Option<Seq<char>>,
    pub change_amount: nat,
}

impl View for OutputSummary {
    type V = SummaryView;

    open spec fn view(&self) -> SummaryView {
        SummaryView {
            receiver_amount: self.receiver_amount as nat,
            change_address: match self.change_address {
                Some(a) => Some(a@),
                None => None,
            },
            change_amount: self.change_amount as nat,
        }
    }
}

/// The summary of a run of outputs: the amount of the last payment (zero if
/// there is none) and the address and amount of the last change output
/// (none and zero if there is none). Outputs without an address count for
/// nothing.
pub open spec fn summary_of(outs: Seq<Payee>, receiver: Seq<char>) -> SummaryView {
    let payment = last_with_role(outs, receiver, OutputRole::Payment);
    let change = last_with_role(outs, receiver, OutputRole::Change);
    SummaryView {
        receiver_amount: match payment {
            Some(p) => p.value,
            None => 0,
        },
        change_address: match change {
            Some(c) => c.address,
            None => None,
        },
        change_amount: match change {
            Some(c) => c.value,
            None => 0,
        },
    }
}

/// Sums up decoded outputs against the receiver's address. Fails exactly
/// when more than one output is change-like; otherwise the summary is the
/// one that `summary_of` describes.
pub fn summarize_outputs(decoded: &Vec<DecodedOutput>, receiver: &String) -> (r: Result<
    OutputSummary,
    Error,
>)
    ensures
        ambiguous(payees(decoded@), receiver@) ==> r matches Err(Error::AmbiguousChange),
        !ambiguous(payees(decoded@), receiver@) ==> (r matches Ok(s) && s@ == summary_of(
            payees(decoded@),
            receiver@,
        )),
{
    let ghost outs = payees(decoded@);
    let mut receiver_amount: u64 = 0;
    let mut change_address: Option<String> = None;
    let mut change_amount: u64 = 0;
    let mut changes: usize = 0;
    let mut i: usize = 0;
    assert(outs.take(0) =~= Seq::<Payee>::empty());
    while i < decoded.len()
        invariant
            i <= decoded.len(),
            outs == payees(decoded@),
            changes == count_role(outs.take(i as int), receiver@, OutputRole::Change),
            changes <= i,
            (OutputSummary { receiver_amount, change_address, change_amount })@ == summary_of(
                outs.take(i as int),
                receiver@,
            ),
        decreases decoded.len() - i,
    {
        let output = &decoded[i];
        proof {
            let next = outs.take(i + 1);
            assert(next.drop_last() =~= outs.take(i as int));
            assert(next.last() == output@);
        }
        match classify_output(&output.party, receiver) {
            OutputRole::Payment => {
                receiver_amount = output.value;
            },
            OutputRole::Change => {
                match &output.party {
                    Party::Address(a) => {
                        change_address = Some(a.clone());
                    },
                    Party::Undecodable => {},
                }
                change_amount = output.value;
                changes = changes + 1;
            },
            OutputRole::Unrecognized => {},
        }
        i = i + 1;
    }
    assert(outs.take(i as int) =~= outs);
    if changes > 1 {
        Err(Error::AmbiguousChange)
    } else {
        Ok(OutputSummary { receiver_amount, change_address, change_amount })
    }
}

/// Everything that is known of one settled transfer. Amounts are in the
/// smallest unit; the fee is the amount paid, without sign.
#[derive(Clone, Debug)]
pub struct SettlementRecord {
    pub txid: String,
    pub sender_address: Party,
    pub sender_amount: u64,
    pub receiver_address: String,
    pub receiver_amount: u64,
    pub change_address: Option<String>,
    pub change_amount: u64,
    pub fee: u64,
    pub block_height: u32,
    pub block_hash: String,
}

/// The mathematical content of a `SettlementRecord`.
pub ghost struct RecordView {
    pub txid: Seq<char>,
    pub sender_address: Option<Seq<char>>,
    pub sender_amount: nat,
    pub receiver_address: Seq<char>,
    pub receiver_amount: nat,
    pub change_address: Option<Seq<char>>,
    pub change_amount: nat,
    pub fee: nat,
    pub block_height: nat,
    pub block_hash: Seq<char>,
}

impl RecordView {
    /// Nothing is lost: what the receiver got, what came back as change and
    /// what was paid as fee add up to what the sender put in.
    pub open spec fn conserves(self) -> bool {
        self.receiver_amount + self.change_amount + self.fee == self.sender_amount
    }
}

impl View for SettlementRecord {
    type V = RecordView;

    open spec fn view(&self) -> RecordView {
        RecordView {
            txid: self.txid@,
            sender_address: self.sender_address@,
            sender_amount: self.sender_amount as nat,
            receiver_address: self.receiver_address@,
            receiver_amount: self.receiver_amount as nat,
            change_address: match self.change_address {
                Some(a) => Some(a@),
                None => None,
            },
            change_amount: self.change_amount as nat,
            fee: self.fee as nat,
            block_height: self.block_height as nat,
            block_hash: self.block_hash@,
        }
    }
}

impl SettlementRecord {
    /// Whether the amounts of the record add up, in exact integer
    /// arithmetic.
    pub fn is_balanced(&self) -> (b: bool)
        ensures
            b == self@.conserves(),
    {
        let outgoing: u128 = self.receiver_amount as u128 + self.change_amount as u128
            + self.fee as u128;
        outgoing == self.sender_amount as u128
    }
}

/// The size of a signed amount.
pub open spec fn magnitude(amount: int) -> nat {
    if amount < 0 {
        (-amount) as nat
    } else {
        amount as nat
    }
}

/// The fee that was paid, from the signed fee of the wallet's view.
pub fn fee_paid(signed_fee: i64) -> (fee: u64)
    ensures
        fee == magnitude(signed_fee as int),
{
    if signed_fee >= 0 {
        signed_fee as u64
    } else if signed_fee == i64::MIN {
        0x8000_0000_0000_0000u64
    } else {
        (-signed_fee) as u64
    }
}

/// The record that the pieces of a transfer make, or the reason there is
/// none. The checks come in this order: the change must be unambiguous,
/// then fee, block height and block hash must be present.
pub open spec fn assembled(
    wallet: WalletFacts,
    sender: Option<Seq<char>>,
    spent: nat,
    receiver: Seq<char>,
    outs: Seq<Payee>,
) -> Result<RecordView, Error> {
    if ambiguous(outs, receiver) {
        Err(Error::AmbiguousChange)
    } else if wallet.fee is None {
        Err(Error::MissingFee)
    } else if wallet.block_height is None {
        Err(Error::MissingBlockHeight)
    } else if wallet.block_hash is None {
        Err(Error::MissingBlockHash)
    } else {
        let summary = summary_of(outs, receiver);
        Ok(
            RecordView {
                txid: wallet.txid,
                sender_address: sender,
                sender_amount: spent,
                receiver_address: receiver,
                receiver_amount: summary.receiver_amount,
                change_address: summary.change_address,
                change_amount: summary.change_amount,
                fee: magnitude(wallet.fee->Some_0),
                block_height: wallet.block_height->Some_0,
                block_hash: wallet.block_hash->Some_0,
            },
        )
    }
}

/// Whether an executable result is the one that the model gives.
pub open spec fn record_matches(
    r: Result<SettlementRecord, Error>,
    model: Result<RecordView, Error>,
) -> bool {
    match model {
        Ok(v) => r matches Ok(record) && record@ == v,
        Err(e) => r matches Err(x) && x == e,
    }
}

/// Builds the settlement record from the wallet's view, the party and value
/// of the spent output, the receiver's address and the decoded outputs of
/// the transaction. No partial record comes out: the result is either the
/// whole record or the first failure in the order of `assembled`.
pub fn assemble_record(
    wallet: &WalletView,
    sender: Party,
    spent_value: u64,
    receiver: &String,
    decoded: &Vec<DecodedOutput>,
) -> (r: Result<SettlementRecord, Error>)
    ensures
        record_matches(
            r,
            assembled(wallet@, sender@, spent_value as nat, receiver@, payees(decoded@)),
        ),
{
    let summary = match summarize_outputs(decoded, receiver) {
        Ok(summary) => summary,
        Err(e) => {
            return Err(e);
        },
    };
    let fee = match wallet.fee {
        Some(f) => fee_paid(f),
        None => {
            return Err(Error::MissingFee);
        },
    };
    let block_height = match wallet.block_height {
        Some(h) => h,
        None => {
            return Err(Error::MissingBlockHeight);
        },
    };
    let block_hash = match &wallet.block_hash {
        Some(h) => h.clone(),
        None => {
            return Err(Error::MissingBlockHash);
        },
    };
    Ok(
        SettlementRecord {
            txid: wallet.txid.clone(),
            sender_address: sender,
            sender_amount: spent_value,
            receiver_address: receiver.clone(),
            receiver_amount: summary.receiver_amount,
            change_address: summary.change_address,
            change_amount: summary.change_amount,
            fee,
            block_height,
            block_hash,
        },
    )
}

/// Where the first input of a transaction leads: the index of the output
/// it spends among the `prev_len` outputs of the previous transaction.
pub open spec fn spent_index(inputs: Seq<OutPoint>, prev_len: nat) -> Result<int, Error> {
    if inputs.len() == 0 {
        Err(Error::NoInputs)
    } else if inputs[0].vout >= prev_len {
        Err(Error::PrevOutputOutOfRange)
    } else {
        Ok(inputs[0].vout as int)
    }
}

/// The outpoint that the first input spends: the transaction to fetch next.
pub fn first_outpoint(raw: &RawTransaction) -> (r: Result<&OutPoint, Error>)
    ensures
        raw.inputs@.len() == 0 ==> r matches Err(Error::NoInputs),
        raw.inputs@.len() > 0 ==> (r matches Ok(p) && *p == raw.inputs@[0]),
{
    if raw.inputs.len() == 0 {
        Err(Error::NoInputs)
    } else {
        Ok(&raw.inputs[0])
    }
}

/// The output of `prev` that the first input of `raw` spends.
pub fn spent_output<'a>(raw: &RawTransaction, prev: &'a RawTransaction) -> (r: Result<
    &'a TxOutput,
    Error,
>)
    ensures
        match spent_index(raw.inputs@, prev.outputs@.len()) {
            Ok(k) => r matches Ok(out) && *out == prev.outputs@[k],
            Err(e) => r matches Err(x) && x == e,
        },
{
    if raw.inputs.len() == 0 {
        return Err(Error::NoInputs);
    }
    let vout = raw.inputs[0].vout as usize;
    if vout >= prev.outputs.len() {
        return Err(Error::PrevOutputOutOfRange);
    }
    Ok(&prev.outputs[vout])
}

/// Decodes the script of every output on `network`, keeping order and
/// amounts. An output whose script names no address stays in the list as
/// `Party::Undecodable`; a data-carrier output is always one of those.
pub fn decode_outputs(outputs: &Vec<TxOutput>, network: Network) -> (decoded: Vec<DecodedOutput>)
    ensures
        payees(decoded@) == decoded_payees(outputs@, network),
        forall|i: int|
            0 <= i < outputs@.len() && is_data_carrier(#[trigger] outputs@[i].script@)
                ==> decoded@[i].party is Undecodable,
{
    let mut decoded: Vec<DecodedOutput> = Vec::new();
    let mut i: usize = 0;
    while i < outputs.len()
        invariant
            i <= outputs.len(),
            decoded@.len() == i,
            forall|j: int|
                0 <= j < i ==> (#[trigger] decoded@[j])@ == decoded_payees(outputs@, network)[j],
            forall|j: int|
                0 <= j < i && is_data_carrier(#[trigger] outputs@[j].script@)
                    ==> decoded@[j].party is Undecodable,
        decreases outputs.len() - i,
    {
        let output = &outputs[i];
        let party = resolve_party(&output.script, network);
        decoded.push(DecodedOutput { value: output.value, party });
        i = i + 1;
    }
    assert(payees(decoded@) =~= decoded_payees(outputs@, network));
    decoded
}

/// Reconstructs the settlement of a confirmed transaction from the wallet's
/// view of it, its raw form, the raw form of the transaction that its first
/// input spends, the receiver's address and the network.
///
/// The sender is the party that the spent output paid, `Undecodable` if its
/// script names no address. Every output is decoded and classified against
/// the receiver; a data-carrier output plays no role, whatever comes out.
/// The result fails, in this order, if the transaction has no input, if the
/// spent output does not exist, if the change is ambiguous, or if the
/// wallet's view lacks fee, block height or block hash.
pub fn extract_settlement(
    wallet: &WalletView,
    raw: &RawTransaction,
    prev: &RawTransaction,
    receiver: &String,
    network: Network,
) -> (r: Result<SettlementRecord, Error>)
    ensures
        match spent_index(raw.inputs@, prev.outputs@.len()) {
            Err(e) => r matches Err(x) && x == e,
            Ok(k) => record_matches(
                r,
                assembled(
                    wallet@,
                    script_address(prev.outputs@[k].script@, network),
                    prev.outputs@[k].value as nat,
                    receiver@,
                    decoded_payees(raw.outputs@, network),
                ),
            ),
        },
        forall|i: int|
            0 <= i < raw.outputs@.len() && is_data_carrier(#[trigger] raw.outputs@[i].script@)
                ==> role_of(decoded_payees(raw.outputs@, network)[i].address, receiver@)
                == OutputRole::Unrecognized,
{
    let decoded = decode_outputs(&raw.outputs, network);
    assert forall|i: int|
        0 <= i < raw.outputs@.len() && is_data_carrier(
            #[trigger] raw.outputs@[i].script@,
        ) implies decoded_payees(raw.outputs@, network)[i].address is None by {
        assert(payees(decoded@)[i] == decoded@[i]@);
    }
    let spent = match spent_output(raw, prev) {
        Ok(spent) => spent,
        Err(e) => {
            return Err(e);
        },
    };
    let sender = resolve_party(&spent.script, network);
    assemble_record(wallet, sender, spent.value, receiver, &decoded)
}

} // verus!
