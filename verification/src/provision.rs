//! Making sure that the wallets of a run are loaded.
//!
//! For each wallet, in order: if the node lists it as loaded, nothing is
//! done. Otherwise the wallet is loaded by name, and if loading fails it is
//! created. A failure to create is reported and the run goes on, so that a
//! later step fails with the clearer error.

use vstd::prelude::*;

verus! {

/// How provisioning of one wallet ended.
#[derive(Clone, Copy, Debug, PartialEq, Eq, Structural)]
pub enum WalletOutcome {
    /// The node had it loaded already.
    AlreadyLoaded,
    /// It existed and was loaded.
    Loaded,
    /// It did not exist and was created.
    Created,
    /// It could neither be loaded nor created.
    Unavailable,
}

/// What to do next for one wallet.
#[derive(Clone, Copy, Debug, PartialEq, Eq, Structural)]
pub enum ProvisionStep {
    /// Ask the node to load the wallet.
    TryLoad,
    /// Ask the node to create the wallet.
    TryCreate,
    /// Nothing more to do.
    Finished(WalletOutcome),
}

/// The names of a list, as text.
pub open spec fn names(list: Seq<String>) -> Seq<Seq<char>> {
    list.map_values(|s: String| s@)
}

/// Whether `name` is among the loaded wallets. Names match only if they
/// are the same text.
pub fn is_loaded(loaded: &Vec<String>, name: &String) -> (found: bool)
    ensures
        found == names(loaded@).contains(name@),
{
    let mut i: usize = 0;
    while i < loaded.len()
        invariant
            i <= loaded.len(),
            forall|j: int| 0 <= j < i ==> names(loaded@)[j] != name@,
        decreases loaded.len() - i,
    {
        if loaded[i] == *name {
            assert(names(loaded@)[i as int] == name@);
            return true;
        }
        i = i + 1;
    }
    false
}

/// The first step for a wallet, given whether the node lists it as loaded.
pub open spec fn first_step(listed: bool) -> ProvisionStep {
    if listed {
        ProvisionStep::Finished(WalletOutcome::AlreadyLoaded)
    } else {
        ProvisionStep::TryLoad
    }
}

/// Starts provisioning of a wallet: a wallet that the node lists is left
/// alone, any other is to be loaded.
pub fn begin_provision(loaded: &Vec<String>, name: &String) -> (step: ProvisionStep)
    ensures
        step == first_step(names(loaded@).contains(name@)),
{
    if is_loaded(loaded, name) {
        ProvisionStep::Finished(WalletOutcome::AlreadyLoaded)
    } else {
        ProvisionStep::TryLoad
    }
}

/// The step after the node has answered a load request: done if the wallet
/// was loaded, else it is to be created.
pub fn after_load(succeeded: bool) -> (step: ProvisionStep)
    ensures
        succeeded ==> step == ProvisionStep::Finished(WalletOutcome::Loaded),
        !succeeded ==> step == ProvisionStep::TryCreate,
{
    if succeeded {
        ProvisionStep::Finished(WalletOutcome::Loaded)
    } else {
        ProvisionStep::TryCreate
    }
}

/// The step after the node has answered a create request: done either way.
/// A failure is an outcome to report, it does not end the run.
pub fn after_create(succeeded: bool) -> (step: ProvisionStep)
    ensures
        succeeded ==> step == ProvisionStep::Finished(WalletOutcome::Created),
        !succeeded ==> step == ProvisionStep::Finished(WalletOutcome::Unavailable),
{
    if succeeded {
        ProvisionStep::Finished(WalletOutcome::Created)
    } else {
        ProvisionStep::Finished(WalletOutcome::Unavailable)
    }
}

/// How provisioning of a wallet ends, given what the node lists and how it
/// would answer a load and a create request.
pub open spec fn outcome_of(listed: bool, load_ok: bool, create_ok: bool) -> WalletOutcome {
    if listed {
        WalletOutcome::AlreadyLoaded
    } else if load_ok {
        WalletOutcome::Loaded
    } else if create_ok {
        WalletOutcome::Created
    } else {
        WalletOutcome::Unavailable
    }
}

/// The node's list of loaded wallets after provisioning of `name` ended
/// with `outcome`: a wallet that was loaded or created is listed from then
/// on.
pub open spec fn loaded_after(
    loaded: Seq<Seq<char>>,
    name: Seq<char>,
    outcome: WalletOutcome,
) -> Seq<Seq<char>> {
    match outcome {
        WalletOutcome::Loaded | WalletOutcome::Created => loaded.push(name),
        WalletOutcome::AlreadyLoaded | WalletOutcome::Unavailable => loaded,
    }
}

/// Provisioning is idempotent. After two wallets were provisioned, neither
/// ending unavailable, a second run on the node's state finds both loaded
/// already: it asks for no load and no creation.
pub proof fn theorem_provision_idempotent(
    loaded: Seq<Seq<char>>,
    first: Seq<char>,
    second: Seq<char>,
    first_load_ok: bool,
    first_create_ok: bool,
    second_load_ok: bool,
    second_create_ok: bool,
)
    requires
        first_load_ok || first_create_ok || loaded.contains(first),
        second_load_ok || second_create_ok || loaded.contains(second),
    ensures
        ({
            let one = outcome_of(loaded.contains(first), first_load_ok, first_create_ok);
            let after_one = loaded_after(loaded, first, one);
            let two = outcome_of(after_one.contains(second), second_load_ok, second_create_ok);
            let after_two = loaded_after(after_one, second, two);
            &&& first_step(after_two.contains(first)) == ProvisionStep::Finished(
                WalletOutcome::AlreadyLoaded,
            )
            &&& first_step(after_two.contains(second)) == ProvisionStep::Finished(
                WalletOutcome::AlreadyLoaded,
            )
        }),
{
    let one = outcome_of(loaded.contains(first), first_load_ok, first_create_ok);
    let after_one = loaded_after(loaded, first, one);
    lemma_listed_after(loaded, first, one);
    if loaded.contains(second) {
        lemma_stays_listed(loaded, first, one, second);
    }
    let two = outcome_of(after_one.contains(second), second_load_ok, second_create_ok);
    let after_two = loaded_after(after_one, second, two);
    lemma_listed_after(after_one, second, two);
    lemma_stays_listed(after_one, second, two, first);
}

/// A wallet whose provisioning did not end unavailable is listed after it.
pub proof fn lemma_listed_after(loaded: Seq<Seq<char>>, name: Seq<char>, outcome: WalletOutcome)
    requires
        outcome != WalletOutcome::Unavailable,
        outcome == WalletOutcome::AlreadyLoaded ==> loaded.contains(name),
    ensures
        loaded_after(loaded, name, outcome).contains(name),
{
    if outcome == WalletOutcome::Loaded || outcome == WalletOutcome::Created {
        assert(loaded.push(name)[loaded.len() as int] == name);
    }
}

/// Provisioning one wallet unloads no other.
pub proof fn lemma_stays_listed(
    loaded: Seq<Seq<char>>,
    name: Seq<char>,
    outcome: WalletOutcome,
    other: Seq<char>,
)
    requires
        loaded.contains(other),
    ensures
        loaded_after(loaded, name, outcome).contains(other),
{
    let j = choose|j: int| 0 <= j < loaded.len() && loaded[j] == other;
    if outcome == WalletOutcome::Loaded || outcome == WalletOutcome::Created {
        assert(loaded.push(name)[j] == other);
    }
}

} // verus!
