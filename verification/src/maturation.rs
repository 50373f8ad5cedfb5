//! Mining until block rewards can be spent.
//!
//! A block reward is spendable only after `window` further blocks have
//! been mined on top of it. The driver knows nothing of the window: it
//! looks at the spendable balance, mines one block while that is zero, and
//! mines one last block once it is not. What follows from the maturity
//! rule is proved here against a model of the node.

use vstd::prelude::*;

verus! {

/// The label of an address that is requested for mining rewards.
pub open spec fn mining_label() -> Seq<char> {
    "Mining Reward"@
}

/// Where the mined blocks pay to.
#[derive(Clone, Debug)]
pub enum MiningTarget {
    /// An address of the wallet that has received funds before.
    Reuse(String),
    /// A fresh address, to be requested from the wallet under this label.
    RequestNew { label: String },
}

/// The target as the model sees it.
pub ghost enum MiningTargetView {
    Reuse(Seq<char>),
    RequestNew { label: Seq<char> },
}

impl View for MiningTarget {
    type V = MiningTargetView;

    open spec fn view(&self) -> MiningTargetView {
        match self {
            MiningTarget::Reuse(a) => MiningTargetView::Reuse(a@),
            MiningTarget::RequestNew { label } => MiningTargetView::RequestNew { label: label@ },
        }
    }
}

/// Picks the address to mine to: the first address that has ever received
/// funds in the wallet, or else a fresh one labelled for mining rewards.
pub fn choose_mining_target(received: &Vec<String>) -> (target: MiningTarget)
    ensures
        received@.len() > 0 ==> target@ == MiningTargetView::Reuse(received@[0]@),
        received@.len() == 0 ==> target@ == (MiningTargetView::RequestNew {
            label: mining_label(),
        }),
{
    if received.len() > 0 {
        MiningTarget::Reuse(received[0].clone())
    } else {
        MiningTarget::RequestNew { label: "Mining Reward".to_owned() }
    }
}

/// What the driver does after looking at the balance.
#[derive(Clone, Copy, Debug, PartialEq, Eq, Structural)]
pub enum MiningStep {
    /// Nothing is spendable yet: mine one block and look again.
    MineAndRecheck,
    /// There is a spendable balance: mine one last block and stop.
    MineFinalBlock,
}

/// The step that a spendable balance calls for.
pub open spec fn step_for(balance: nat) -> MiningStep {
    if balance == 0 {
        MiningStep::MineAndRecheck
    } else {
        MiningStep::MineFinalBlock
    }
}

/// Decides the next step from the wallet's spendable balance, in smallest
/// units: while it is exactly zero another block is mined and the balance
/// looked at again, otherwise one last block is mined.
pub fn next_mining_step(balance: u64) -> (step: MiningStep)
    ensures
        step == step_for(balance as nat),
{
    if balance == 0 {
        MiningStep::MineAndRecheck
    } else {
        MiningStep::MineFinalBlock
    }
}

/// The maturity rule: of `blocks` rewards mined in a row, those with more
/// than `window` blocks on top of them are spendable.
pub open spec fn matured_rewards(blocks: nat, window: nat) -> nat {
    if blocks > window {
        (blocks - window) as nat
    } else {
        0
    }
}

/// The spendable balance of a wallet that owns the rewards of `blocks`
/// blocks and nothing else, each reward being `reward` units.
pub open spec fn spendable_balance(blocks: nat, window: nat, reward: nat) -> nat {
    matured_rewards(blocks, window) * reward
}

/// The number of blocks that the wallet owns when the driver's loop ends,
/// having started at `blocks`: the loop mines while the balance is zero.
pub open spec fn blocks_when_spendable(blocks: nat, window: nat, reward: nat) -> nat
    decreases window + 1 - blocks,
{
    if step_for(spendable_balance(blocks, window, reward)) == MiningStep::MineAndRecheck
        && blocks <= window {
        blocks_when_spendable(blocks + 1, window, reward)
    } else {
        blocks
    }
}

/// The number of blocks that the wallet owns when the driver is done: the
/// loop, then the one block that is always mined.
pub open spec fn blocks_when_done(blocks: nat, window: nat, reward: nat) -> nat {
    blocks_when_spendable(blocks, window, reward) + 1
}

/// With a window of `window`, nothing is spendable up to `window` blocks,
/// and the balance is non-zero for the first time after `window + 1`.
pub proof fn theorem_first_spendable_block(window: nat, reward: nat, blocks: nat)
    requires
        reward > 0,
    ensures
        blocks <= window ==> spendable_balance(blocks, window, reward) == 0,
        blocks > window ==> spendable_balance(blocks, window, reward) > 0,
        spendable_balance(window + 1, window, reward) == reward,
{
    if blocks > window {
        assert(matured_rewards(blocks, window) * reward >= reward) by (nonlinear_arith)
            requires
                matured_rewards(blocks, window) >= 1,
                reward > 0,
        ;
    } else {
        assert(0 * reward == 0) by (nonlinear_arith);
    }
    assert(1 * reward == reward) by (nonlinear_arith);
}

/// The loop stops at the first block count with a spendable balance: where
/// it started if something was spendable already, else at `window + 1`.
pub proof fn lemma_loop_end(blocks: nat, window: nat, reward: nat)
    requires
        reward > 0,
    ensures
        blocks_when_spendable(blocks, window, reward) == if blocks > window {
            blocks
        } else {
            window + 1
        },
    decreases window + 1 - blocks,
{
    theorem_first_spendable_block(window, reward, blocks);
    if blocks <= window {
        lemma_loop_end(blocks + 1, window, reward);
    }
}

/// Starting from no blocks, the driver's loop mines exactly `window + 1`
/// blocks, and the driver `window + 2` in all.
pub proof fn theorem_blocks_from_scratch(window: nat, reward: nat)
    requires
        reward > 0,
    ensures
        blocks_when_spendable(0, window, reward) == window + 1,
        blocks_when_done(0, window, reward) == window + 2,
{
    lemma_loop_end(0, window, reward);
}

/// When the driver is done, the spendable balance is not zero, and it is
/// exactly the matured rewards: one for every block but the last `window`.
pub proof fn theorem_balance_when_done(blocks: nat, window: nat, reward: nat)
    requires
        reward > 0,
    ensures
        ({
            let done = blocks_when_done(blocks, window, reward);
            &&& done > window + 1
            &&& spendable_balance(done, window, reward) > 0
            &&& spendable_balance(done, window, reward) == (done - window) * reward
        }),
{
    lemma_loop_end(blocks, window, reward);
    theorem_first_spendable_block(window, reward, blocks_when_done(blocks, window, reward));
}

} // verus!
