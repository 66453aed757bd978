use vstd::prelude::*;
use crate::entities::{MultisigWallet, Pubkey, Transaction, count_true, no_dup};
use crate::use_cases::{execute_error, init_error, set_owners_error, threshold_after};
use crate::utils::ErrorCode;

verus! {

/// Every owner list that is non-empty and duplicate-free, with a threshold
/// between 1 and its length, is accepted by `create_multisig_wallet`, whose
/// wallet then starts at owner-set version 0.
pub proof fn lemma_valid_init_accepted(owners: Seq<Pubkey>, threshold: u64)
    requires
        owners.len() > 0,
        no_dup(owners),
        1 <= threshold <= owners.len(),
    ensures
        init_error(owners, threshold) is None,
{
}

/// An owner list holding a key twice is always rejected with
/// `UniqueOwners`, whatever the threshold: no wallet comes of it.
pub proof fn lemma_duplicate_owner_rejected(owners: Seq<Pubkey>, threshold: u64, i: int, j: int)
    requires
        0 <= i < j < owners.len(),
        owners[i] == owners[j],
    ensures
        init_error(owners, threshold) == Some(ErrorCode::UniqueOwners),
{
}

/// The approvals of a fresh proposal, one per slot of a duplicate-free
/// owner list and true where the owner is the proposer, hold the proposer's
/// slot and no other.
pub proof fn lemma_proposer_sole_approval(
    owners: Seq<Pubkey>,
    signers: Seq<bool>,
    proposer: Pubkey,
    k: int,
)
    requires
        no_dup(owners),
        signers.len() == owners.len(),
        forall|i: int| 0 <= i < signers.len() ==> signers[i] == (owners[i] == proposer),
        0 <= k < owners.len(),
        owners[k] == proposer,
    ensures
        signers[k],
        forall|i: int| 0 <= i < signers.len() && i != k ==> !signers[i],
{
    assert forall|i: int| 0 <= i < signers.len() && i != k implies !signers[i] by {
        if i < k {
            assert(owners[i] != owners[k]);
        } else {
            assert(owners[k] != owners[i]);
        }
    }
}

/// However the approvals are set, fewer of them than the threshold make a
/// current, unexecuted transaction of the wallet fail with
/// `NotEnoughSigners`.
pub proof fn lemma_below_threshold_rejected(w: MultisigWallet, multisig_address: Pubkey, t: Transaction)
    requires
        t.multisig == multisig_address,
        t.owner_set_seqno == w.owner_set_seqno,
        !t.did_execute,
        count_true(t.signers@) < w.threshold,
    ensures
        execute_error(w, multisig_address, t) == Some(ErrorCode::NotEnoughSigners),
{
}

/// A transaction executes at most once: after a successful execution it
/// stays executed (approvals never reset the flag), and every later
/// execution fails, against any wallet; against its own wallet, while the
/// owner set is the one it was proposed under, with `AlreadyExecuted`,
/// whatever its approvals are by then.
pub proof fn lemma_execute_at_most_once(
    w: MultisigWallet,
    multisig_address: Pubkey,
    t: Transaction,
    later_wallet: MultisigWallet,
    later_address: Pubkey,
    later: Transaction,
)
    requires
        execute_error(w, multisig_address, t) is None,
        later.did_execute,
        later.multisig == t.multisig,
        later.owner_set_seqno == t.owner_set_seqno,
    ensures
        execute_error(later_wallet, later_address, later) is Some,
        later_address == multisig_address && later_wallet.owner_set_seqno == t.owner_set_seqno
            ==> execute_error(later_wallet, later_address, later) == Some(
            ErrorCode::AlreadyExecuted,
        ),
{
}

/// A transaction of a wallet proposed before an owner change (at that
/// version or an earlier one) fails with `OwnerSetChanged` once the version
/// has been incremented, even where it had reached the quorum.
pub proof fn lemma_owner_change_invalidates(
    before: MultisigWallet,
    after: MultisigWallet,
    multisig_address: Pubkey,
    t: Transaction,
)
    requires
        t.multisig == multisig_address,
        t.owner_set_seqno <= before.owner_set_seqno,
        after.owner_set_seqno == before.owner_set_seqno + 1,
    ensures
        execute_error(after, multisig_address, t) == Some(ErrorCode::OwnerSetChanged),
{
}

/// Replacing the owners of a wallet below the largest owner-set version by
/// a valid list shorter than the threshold is accepted, and the threshold
/// becomes the new owner count.
pub proof fn lemma_fewer_owners_lower_threshold(w: MultisigWallet, owners: Seq<Pubkey>)
    requires
        owners.len() > 0,
        no_dup(owners),
        owners.len() < w.threshold,
        w.owner_set_seqno < u32::MAX,
    ensures
        set_owners_error(w, owners) is None,
        threshold_after(w.threshold, owners.len()) == owners.len(),
{
}

/// Replacing the owners never raises the threshold: it is lowered to the
/// new owner count where it exceeded it, and kept otherwise.
pub proof fn lemma_threshold_never_raised(threshold: u64, n_owners: nat)
    ensures
        threshold_after(threshold, n_owners) <= threshold,
        n_owners < threshold ==> threshold_after(threshold, n_owners) == n_owners,
        n_owners >= threshold ==> threshold_after(threshold, n_owners) == threshold,
{
}

} // verus!
