//! Where the value of a settled transfer goes, and what classification
//! can and cannot be swayed by.

use vstd::prelude::*;
use crate::provenance::{
    ambiguous, assembled, count_role, last_with_role, magnitude, role_of, summary_of,
    OutputRole, Payee, SummaryView, WalletFacts,
};

verus! {

/// The total value of a run of outputs.
pub open spec fn total_value(outs: Seq<Payee>) -> nat
    decreases outs.len(),
{
    if outs.len() == 0 {
        0
    } else {
        total_value(outs.drop_last()) + outs.last().value
    }
}

/// The value that the outputs playing `role` carry together.
pub open spec fn value_with_role(outs: Seq<Payee>, receiver: Seq<char>, role: OutputRole) -> nat
    decreases outs.len(),
{
    if outs.len() == 0 {
        0
    } else {
        let rest = value_with_role(outs.drop_last(), receiver, role);
        if role_of(outs.last().address, receiver) == role {
            rest + outs.last().value
        } else {
            rest
        }
    }
}

/// Every output plays exactly one role, so the three roles share out the
/// total value.
pub proof fn lemma_roles_partition_value(outs: Seq<Payee>, receiver: Seq<char>)
    ensures
        total_value(outs) == value_with_role(outs, receiver, OutputRole::Payment)
            + value_with_role(outs, receiver, OutputRole::Change) + value_with_role(
            outs,
            receiver,
            OutputRole::Unrecognized,
        ),
    decreases outs.len(),
{
    if outs.len() > 0 {
        lemma_roles_partition_value(outs.drop_last(), receiver);
    }
}

/// The last output of a role never carries more than all outputs of that
/// role, and carries all of it when the role is played at most once.
pub proof fn lemma_last_of_role(outs: Seq<Payee>, receiver: Seq<char>, role: OutputRole)
    ensures
        match last_with_role(outs, receiver, role) {
            Some(p) => {
                &&& count_role(outs, receiver, role) >= 1
                &&& role_of(p.address, receiver) == role
                &&& outs.contains(p)
                &&& p.value <= value_with_role(outs, receiver, role)
                &&& count_role(outs, receiver, role) == 1 ==> p.value == value_with_role(
                    outs,
                    receiver,
                    role,
                )
            },
            None => {
                &&& count_role(outs, receiver, role) == 0
                &&& value_with_role(outs, receiver, role) == 0
            },
        },
    decreases outs.len(),
{
    if outs.len() > 0 {
        let rest = outs.drop_last();
        lemma_last_of_role(rest, receiver, role);
        assert(outs[outs.len() - 1] == outs.last());
        match last_with_role(rest, receiver, role) {
            Some(p) => {
                let j = choose|j: int| 0 <= j < rest.len() && rest[j] == p;
                assert(outs[j] == p);
            },
            None => {},
        }
    }
}

/// Where the value of a settled transfer goes. Let the fee be what all
/// inputs bring less what all outputs carry, `other_inputs` being the value
/// of the inputs after the first. Then the record conserves value exactly
/// when the other inputs bring as much as the outputs left out of the
/// record carry: those without an address, and payments that a later
/// payment to the receiver replaced.
pub proof fn lemma_settlement_accounting(
    wallet: WalletFacts,
    sender: Option<Seq<char>>,
    spent: nat,
    receiver: Seq<char>,
    outs: Seq<Payee>,
    other_inputs: nat,
)
    requires
        assembled(wallet, sender, spent, receiver, outs) is Ok,
        magnitude(wallet.fee->Some_0) + total_value(outs) == spent + other_inputs,
    ensures
        ({
            let record = assembled(wallet, sender, spent, receiver, outs)->Ok_0;
            let payments = value_with_role(outs, receiver, OutputRole::Payment);
            let unrecognized = value_with_role(outs, receiver, OutputRole::Unrecognized);
            &&& record.receiver_amount <= payments
            &&& record.conserves() <==> other_inputs == unrecognized + (payments
                - record.receiver_amount)
        }),
{
    lemma_roles_partition_value(outs, receiver);
    lemma_last_of_role(outs, receiver, OutputRole::Payment);
    lemma_last_of_role(outs, receiver, OutputRole::Change);
}

/// Conservation of value. For a transaction with a single input, whose fee
/// is what that input brings less what the outputs carry, in which at most
/// one output pays the receiver and no value goes to an output without an
/// address: receiver amount, change amount and fee of the record add up to
/// the sender's input amount, exactly.
pub proof fn theorem_conservation(
    wallet: WalletFacts,
    sender: Option<Seq<char>>,
    spent: nat,
    receiver: Seq<char>,
    outs: Seq<Payee>,
)
    requires
        assembled(wallet, sender, spent, receiver, outs) is Ok,
        magnitude(wallet.fee->Some_0) + total_value(outs) == spent,
        count_role(outs, receiver, OutputRole::Payment) <= 1,
        value_with_role(outs, receiver, OutputRole::Unrecognized) == 0,
    ensures
        assembled(wallet, sender, spent, receiver, outs)->Ok_0.conserves(),
{
    lemma_settlement_accounting(wallet, sender, spent, receiver, outs, 0);
    lemma_last_of_role(outs, receiver, OutputRole::Payment);
}

/// Matching does not depend on position. An output that is the only one of
/// its role is found wherever it stands among the outputs.
pub proof fn lemma_unique_role_found_anywhere(outs: Seq<Payee>, receiver: Seq<char>, i: int)
    requires
        0 <= i < outs.len(),
        count_role(outs, receiver, role_of(outs[i].address, receiver)) == 1,
    ensures
        last_with_role(outs, receiver, role_of(outs[i].address, receiver)) == Some(outs[i]),
    decreases outs.len(),
{
    let role = role_of(outs[i].address, receiver);
    let rest = outs.drop_last();
    if i == outs.len() - 1 {
    } else {
        assert(rest[i] == outs[i]);
        lemma_last_of_role(rest, receiver, role);
        if role_of(outs.last().address, receiver) == role {
            // Then the role would be played twice: by the last output and
            // by the one at `i`.
            lemma_count_positive(rest, receiver, i);
        } else {
            lemma_unique_role_found_anywhere(rest, receiver, i);
        }
    }
}

/// An output counts towards its own role.
pub proof fn lemma_count_positive(outs: Seq<Payee>, receiver: Seq<char>, i: int)
    requires
        0 <= i < outs.len(),
    ensures
        count_role(outs, receiver, role_of(outs[i].address, receiver)) >= 1,
    decreases outs.len(),
{
    if i < outs.len() - 1 {
        assert(outs.drop_last()[i] == outs[i]);
        lemma_count_positive(outs.drop_last(), receiver, i);
    }
}

/// Two outputs, one to the receiver and one to any other address, are told
/// apart in either order: the payment is the one to the receiver, the
/// change is the other, with its address.
pub proof fn theorem_matching_ignores_order(payment: Payee, other: Payee, receiver: Seq<char>)
    requires
        payment.address == Some(receiver),
        other.address is Some,
        other.address != Some(receiver),
    ensures
        !ambiguous(seq![payment, other], receiver),
        !ambiguous(seq![other, payment], receiver),
        summary_of(seq![payment, other], receiver) == summary_of(seq![other, payment], receiver),
        summary_of(seq![payment, other], receiver) == (SummaryView {
            receiver_amount: payment.value,
            change_address: other.address,
            change_amount: other.value,
        }),
{
    let a = seq![payment, other];
    let b = seq![other, payment];
    assert(a.drop_last() =~= seq![payment]);
    assert(b.drop_last() =~= seq![other]);
    assert(seq![payment].drop_last() =~= Seq::<Payee>::empty());
    assert(seq![other].drop_last() =~= Seq::<Payee>::empty());
    reveal_with_fuel(count_role, 3);
    reveal_with_fuel(last_with_role, 3);
}

/// An output without an address is skipped: taking it out of the
/// transaction changes neither the summary nor whether the change is
/// ambiguous, so it changes nothing in what extraction gives.
pub proof fn theorem_undecodable_is_skipped(outs: Seq<Payee>, receiver: Seq<char>, i: int)
    requires
        0 <= i < outs.len(),
        outs[i].address is None,
    ensures
        summary_of(outs.remove(i), receiver) == summary_of(outs, receiver),
        ambiguous(outs.remove(i), receiver) == ambiguous(outs, receiver),
{
    lemma_remove_other_role(outs, receiver, i, OutputRole::Payment);
    lemma_remove_other_role(outs, receiver, i, OutputRole::Change);
}

/// Taking out an output affects no role but its own.
pub proof fn lemma_remove_other_role(
    outs: Seq<Payee>,
    receiver: Seq<char>,
    i: int,
    role: OutputRole,
)
    requires
        0 <= i < outs.len(),
        role_of(outs[i].address, receiver) != role,
    ensures
        last_with_role(outs.remove(i), receiver, role) == last_with_role(outs, receiver, role),
        count_role(outs.remove(i), receiver, role) == count_role(outs, receiver, role),
    decreases outs.len(),
{
    if i == outs.len() - 1 {
        assert(outs.remove(i) =~= outs.drop_last());
    } else {
        let rest = outs.drop_last();
        assert(rest[i] == outs[i]);
        assert(outs.remove(i).drop_last() =~= rest.remove(i));
        assert(outs.remove(i).last() == outs.last());
        lemma_remove_other_role(rest, receiver, i, role);
    }
}

/// The change address is always the decoded address of an output, and
/// never the receiver's: an output without an address cannot become it.
pub proof fn theorem_change_is_decoded(outs: Seq<Payee>, receiver: Seq<char>)
    ensures
        match summary_of(outs, receiver).change_address {
            Some(a) => a != receiver && exists|j: int|
                0 <= j < outs.len() && (#[trigger] outs[j]).address == Some(a),
            None => summary_of(outs, receiver).change_amount == 0,
        },
{
    lemma_last_of_role(outs, receiver, OutputRole::Change);
    match last_with_role(outs, receiver, OutputRole::Change) {
        Some(p) => {
            let j = choose|j: int| 0 <= j < outs.len() && outs[j] == p;
            assert(outs[j].address == p.address);
        },
        None => {},
    }
}

} // verus!
