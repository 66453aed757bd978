use vstd::prelude::*;
use crate::entities::{
    Instruction, MultisigWallet, Pubkey, Transaction, TransactionAccount, count_true, no_dup,
};
use crate::utils::{ErrorCode, assert_unique_owners, count_signers, owner_position};

verus! {

/// Why a wallet cannot be created from `owners` and `threshold`, if it can't.
pub open spec fn init_error(owners: Seq<Pubkey>, threshold: u64) -> Option<ErrorCode> {
    if owners.len() == 0 {
        Some(ErrorCode::InvalidOwnersLen)
    } else if !no_dup(owners) {
        Some(ErrorCode::UniqueOwners)
    } else if !(1 <= threshold <= owners.len()) {
        Some(ErrorCode::InvalidThreshold)
    } else {
        None
    }
}

/// Why the owners of `w` cannot be replaced by `owners`, if they can't.
pub open spec fn set_owners_error(w: MultisigWallet, owners: Seq<Pubkey>) -> Option<ErrorCode> {
    if !no_dup(owners) {
        Some(ErrorCode::UniqueOwners)
    } else if owners.len() == 0 {
        Some(ErrorCode::InvalidOwnersLen)
    } else if w.owner_set_seqno == u32::MAX {
        Some(ErrorCode::Overflow)
    } else {
        None
    }
}

/// The threshold after the owner count became `n_owners`: lowered to the
/// owner count where it exceeds it, unchanged otherwise.
pub open spec fn threshold_after(threshold: u64, n_owners: nat) -> u64 {
    if n_owners < threshold {
        n_owners as u64
    } else {
        threshold
    }
}

/// Why the threshold of a wallet with `n_owners` owners cannot become
/// `threshold`, if it can't.
pub open spec fn threshold_error(n_owners: nat, threshold: u64) -> Option<ErrorCode> {
    if threshold == 0 || threshold > n_owners {
        Some(ErrorCode::InvalidThreshold)
    } else {
        None
    }
}

/// Why `t` cannot be executed against `w`, the wallet at `multisig_address`,
/// if it can't; the checks come in this order.
pub open spec fn execute_error(w: MultisigWallet, multisig_address: Pubkey, t: Transaction) -> Option<
    ErrorCode,
> {
    if t.multisig != multisig_address {
        Some(ErrorCode::InvalidMultisig)
    } else if t.owner_set_seqno != w.owner_set_seqno {
        Some(ErrorCode::OwnerSetChanged)
    } else if t.did_execute {
        Some(ErrorCode::AlreadyExecuted)
    } else if count_true(t.signers@) < w.threshold {
        Some(ErrorCode::NotEnoughSigners)
    } else {
        None
    }
}

/// The approval flags after `owner`, at `index` of the current owners,
/// approved: the slot is set where the transaction has it.
pub open spec fn approved_signers(signers: Seq<bool>, index: int) -> Seq<bool> {
    if 0 <= index < signers.len() {
        signers.update(index, true)
    } else {
        signers
    }
}

/// A parameter of the deferred call as it is forwarded: marked as signer
/// where its key is the wallet's authority.
pub open spec fn with_authority(a: TransactionAccount, authority: Pubkey) -> TransactionAccount {
    TransactionAccount { is_signer: a.is_signer || a.pubkey == authority, ..a }
}

/// Whether `multisig_wallet` satisfies the wallet invariant.
pub fn wallet_is_well_formed(multisig_wallet: &MultisigWallet) -> (r: bool)
    ensures
        r == multisig_wallet.wf(),
{
    multisig_wallet.owners.len() > 0 && assert_unique_owners(multisig_wallet.owners.as_slice()).is_ok()
        && multisig_wallet.threshold >= 1 && multisig_wallet.threshold <= multisig_wallet.owners.len() as u64
}

/// Creates a wallet with the given owners, threshold and derivation
/// parameter, at owner-set version 0 and without metadata.
pub fn create_multisig_wallet(owners: Vec<Pubkey>, threshold: u64, nonce: u8) -> (r: Result<
    MultisigWallet,
    ErrorCode,
>)
    ensures
        match r {
            Ok(w) => init_error(owners@, threshold) is None && w.wf() && w.owners@ == owners@
                && w.threshold == threshold && w.nonce == nonce && w.owner_set_seqno == 0
                && w.data is None,
            Err(e) => init_error(owners@, threshold) == Some(e),
        },
{
    if owners.len() == 0 {
        return Err(ErrorCode::InvalidOwnersLen);
    }
    assert_unique_owners(owners.as_slice())?;
    if !(threshold > 0 && threshold <= owners.len() as u64) {
        return Err(ErrorCode::InvalidThreshold);
    }
    Ok(MultisigWallet { owners, threshold, nonce, owner_set_seqno: 0, data: None })
}

/// Replaces the owners of a wallet and increments its owner-set version;
/// a threshold above the new owner count is lowered to it.
pub fn set_multisig_wallet_owners(multisig_wallet: &mut MultisigWallet, owners: Vec<Pubkey>) -> (r:
    Result<(), ErrorCode>)
    ensures
        match r {
            Ok(()) => set_owners_error(*old(multisig_wallet), owners@) is None
                && final(multisig_wallet).owners@ == owners@
                && final(multisig_wallet).threshold == threshold_after(
                old(multisig_wallet).threshold,
                owners@.len(),
            ) && final(multisig_wallet).owner_set_seqno == old(multisig_wallet).owner_set_seqno
                + 1 && final(multisig_wallet).nonce == old(multisig_wallet).nonce
                && final(multisig_wallet).data == old(multisig_wallet).data,
            Err(e) => set_owners_error(*old(multisig_wallet), owners@) == Some(e)
                && *final(multisig_wallet) == *old(multisig_wallet),
        },
        old(multisig_wallet).wf() ==> final(multisig_wallet).wf(),
{
    assert_unique_owners(owners.as_slice())?;
    if owners.len() == 0 {
        return Err(ErrorCode::InvalidOwnersLen);
    }
    if multisig_wallet.owner_set_seqno == u32::MAX {
        return Err(ErrorCode::Overflow);
    }
    if (owners.len() as u64) < multisig_wallet.threshold {
        multisig_wallet.threshold = owners.len() as u64;
    }
    multisig_wallet.owners = owners;
    multisig_wallet.owner_set_seqno = multisig_wallet.owner_set_seqno + 1;
    Ok(())
}

/// Replaces the threshold of a wallet, which must lie between 1 and the
/// current owner count.
pub fn change_multisig_wallet_threshold(multisig_wallet: &mut MultisigWallet, threshold: u64) -> (r:
    Result<(), ErrorCode>)
    ensures
        match r {
            Ok(()) => threshold_error(old(multisig_wallet).owners@.len(), threshold) is None
                && *final(multisig_wallet) == (MultisigWallet {
                threshold,
                ..*old(multisig_wallet)
            }),
            Err(e) => threshold_error(old(multisig_wallet).owners@.len(), threshold) == Some(e)
                && *final(multisig_wallet) == *old(multisig_wallet),
        },
        old(multisig_wallet).wf() ==> final(multisig_wallet).wf(),
{
    if threshold == 0 || threshold > multisig_wallet.owners.len() as u64 {
        return Err(ErrorCode::InvalidThreshold);
    }
    multisig_wallet.threshold = threshold;
    Ok(())
}

/// Replaces owners and threshold as one unit: the owners as
/// `set_multisig_wallet_owners` does, then the threshold, checked against
/// the new owner count. Where either step is rejected nothing changes.
pub fn set_multisig_wallet_owners_and_threshold(
    multisig_wallet: &mut MultisigWallet,
    owners: Vec<Pubkey>,
    threshold: u64,
) -> (r: Result<(), ErrorCode>)
    ensures
        match r {
            Ok(()) => set_owners_error(*old(multisig_wallet), owners@) is None && threshold_error(
                owners@.len(),
                threshold,
            ) is None && final(multisig_wallet).owners@ == owners@
                && final(multisig_wallet).threshold == threshold
                && final(multisig_wallet).owner_set_seqno == old(multisig_wallet).owner_set_seqno
                + 1 && final(multisig_wallet).nonce == old(multisig_wallet).nonce
                && final(multisig_wallet).data == old(multisig_wallet).data
                && final(multisig_wallet).wf(),
            Err(e) => *final(multisig_wallet) == *old(multisig_wallet) && if set_owners_error(
                *old(multisig_wallet),
                owners@,
            ) is Some {
                set_owners_error(*old(multisig_wallet), owners@) == Some(e)
            } else {
                threshold_error(owners@.len(), threshold) == Some(e)
            },
        },
{
    assert_unique_owners(owners.as_slice())?;
    if owners.len() == 0 {
        return Err(ErrorCode::InvalidOwnersLen);
    }
    if multisig_wallet.owner_set_seqno == u32::MAX {
        return Err(ErrorCode::Overflow);
    }
    if threshold == 0 || threshold > owners.len() as u64 {
        return Err(ErrorCode::InvalidThreshold);
    }
    multisig_wallet.owners = owners;
    multisig_wallet.threshold = threshold;
    multisig_wallet.owner_set_seqno = multisig_wallet.owner_set_seqno + 1;
    Ok(())
}

/// Replaces the wallet's metadata.
pub fn set_multisig_wallet_data(multisig_wallet: &mut MultisigWallet, data: Option<String>)
    ensures
        *final(multisig_wallet) == (MultisigWallet { data, ..*old(multisig_wallet) }),
{
    multisig_wallet.data = data;
}

/// Proposes a deferred call on behalf of `proposer`, one of the wallet's
/// owners, whose approval it already carries.
pub fn create_multisig_wallet_transaction(
    multisig_wallet: &MultisigWallet,
    multisig_address: &Pubkey,
    proposer: &Pubkey,
    program_id: Pubkey,
    accounts: Vec<TransactionAccount>,
    data: Vec<u8>,
) -> (r: Result<Transaction, ErrorCode>)
    requires
        multisig_wallet.wf(),
    ensures
        r is Err <==> !multisig_wallet.owners@.contains(*proposer),
        r is Err ==> r == Err::<Transaction, ErrorCode>(ErrorCode::InvalidOwner),
        r matches Ok(t) ==> {
            &&& t.multisig == *multisig_address
            &&& t.program_id == program_id
            &&& t.accounts@ == accounts@
            &&& t.data@ == data@
            &&& t.signers@.len() == multisig_wallet.owners@.len()
            &&& forall|i: int|
                0 <= i < t.signers@.len() ==> t.signers@[i] == (multisig_wallet.owners@[i]
                    == *proposer)
            &&& !t.did_execute
            &&& t.owner_set_seqno == multisig_wallet.owner_set_seqno
        },
{
    let owner_index = match owner_position(&multisig_wallet.owners, proposer) {
        Some(i) => i,
        None => {
            return Err(ErrorCode::InvalidOwner);
        },
    };
    let n = multisig_wallet.owners.len();
    let mut signers: Vec<bool> = Vec::new();
    let mut i: usize = 0;
    while i < n
        invariant
            n == multisig_wallet.owners@.len(),
            owner_index < n,
            0 <= i <= n,
            signers@.len() == i,
            forall|j: int| 0 <= j < i ==> signers@[j] == (j == owner_index),
        decreases n - i,
    {
        signers.push(i == owner_index);
        i = i + 1;
    }
    assert forall|j: int| 0 <= j < signers@.len() implies signers@[j] == (
    multisig_wallet.owners@[j] == *proposer) by {
        if j != owner_index {
            assert(multisig_wallet.owners@[j] != multisig_wallet.owners@[owner_index as int]);
        }
    }
    Ok(Transaction {
        multisig: *multisig_address,
        program_id,
        accounts,
        data,
        signers,
        did_execute: false,
        owner_set_seqno: multisig_wallet.owner_set_seqno,
    })
}

/// Records the approval of `owner`, one of the current owners of the wallet
/// at `multisig_address`, in the slot of its position, where the transaction
/// belongs to that wallet. Approving twice changes nothing more; where
/// the transaction has no such slot (it was proposed under another owner
/// set) the approval is accepted and has no effect.
pub fn approve(
    multisig_wallet: &MultisigWallet,
    multisig_address: &Pubkey,
    transaction: &mut Transaction,
    owner: &Pubkey,
) -> (r: Result<(), ErrorCode>)
    requires
        multisig_wallet.wf(),
    ensures
        old(transaction).multisig != *multisig_address ==> r == Err::<(), ErrorCode>(
            ErrorCode::InvalidMultisig,
        ),
        old(transaction).multisig == *multisig_address ==> (r is Err
            <==> !multisig_wallet.owners@.contains(*owner)),
        old(transaction).multisig == *multisig_address && r is Err ==> r == Err::<(), ErrorCode>(
            ErrorCode::InvalidOwner,
        ),
        r is Err ==> *final(transaction) == *old(transaction),
        r is Ok ==> forall|k: int|
            0 <= k < multisig_wallet.owners@.len() && #[trigger] multisig_wallet.owners@[k]
                == *owner ==> final(transaction).signers@ == approved_signers(
                old(transaction).signers@,
                k,
            ),
        final(transaction).multisig == old(transaction).multisig,
        final(transaction).program_id == old(transaction).program_id,
        final(transaction).accounts == old(transaction).accounts,
        final(transaction).data == old(transaction).data,
        final(transaction).did_execute == old(transaction).did_execute,
        final(transaction).owner_set_seqno == old(transaction).owner_set_seqno,
{
    if transaction.multisig != *multisig_address {
        return Err(ErrorCode::InvalidMultisig);
    }
    let owner_index = match owner_position(&multisig_wallet.owners, owner) {
        Some(i) => i,
        None => {
            return Err(ErrorCode::InvalidOwner);
        },
    };
    if owner_index < transaction.signers.len() {
        transaction.signers.set(owner_index, true);
    }
    assert forall|k: int|
        0 <= k < multisig_wallet.owners@.len() && #[trigger] multisig_wallet.owners@[k]
            == *owner implies k == owner_index by {
        if k != owner_index {
            assert(multisig_wallet.owners@[k] != multisig_wallet.owners@[owner_index as int]);
        }
    }
    Ok(())
}

/// Checks, against one snapshot of the wallet at `multisig_address`, that
/// `transaction` belongs to it, that its owner set is current, that it has
/// not run yet and that enough owners approved it. Changes nothing.
pub fn check_execution(
    multisig_wallet: &MultisigWallet,
    multisig_address: &Pubkey,
    transaction: &Transaction,
) -> (r: Result<(), ErrorCode>)
    ensures
        match r {
            Ok(()) => execute_error(*multisig_wallet, *multisig_address, *transaction) is None,
            Err(e) => execute_error(*multisig_wallet, *multisig_address, *transaction) == Some(e),
        },
{
    if transaction.multisig != *multisig_address {
        return Err(ErrorCode::InvalidMultisig);
    }
    if transaction.owner_set_seqno != multisig_wallet.owner_set_seqno {
        return Err(ErrorCode::OwnerSetChanged);
    }
    if transaction.did_execute {
        return Err(ErrorCode::AlreadyExecuted);
    }
    let sig_count = count_signers(&transaction.signers);
    if sig_count < multisig_wallet.threshold {
        return Err(ErrorCode::NotEnoughSigners);
    }
    Ok(())
}

/// Marks a transaction executed where `check_execution` accepts it.
pub fn execute_multisig_wallet_transaction(
    multisig_wallet: &MultisigWallet,
    multisig_address: &Pubkey,
    transaction: &mut Transaction,
) -> (r: Result<(), ErrorCode>)
    ensures
        match r {
            Ok(()) => execute_error(*multisig_wallet, *multisig_address, *old(transaction)) is None
                && *final(transaction) == (Transaction { did_execute: true, ..*old(transaction) }),
            Err(e) => execute_error(*multisig_wallet, *multisig_address, *old(transaction)) == Some(
                e,
            ) && *final(transaction) == *old(transaction),
        },
{
    check_execution(multisig_wallet, multisig_address, transaction)?;
    transaction.did_execute = true;
    Ok(())
}

/// The deferred call of `transaction`, with every parameter whose key is
/// `authority` marked as signer.
pub fn signed_instruction(transaction: &Transaction, authority: &Pubkey) -> (r: Instruction)
    ensures
        r.program_id == transaction.program_id,
        r.data@ == transaction.data@,
        r.accounts@ == transaction.accounts@.map_values(
            |a: TransactionAccount| with_authority(a, *authority),
        ),
{
    let mut accounts: Vec<TransactionAccount> = Vec::new();
    let mut i: usize = 0;
    while i < transaction.accounts.len()
        invariant
            0 <= i <= transaction.accounts@.len(),
            accounts@ == transaction.accounts@.subrange(0, i as int).map_values(
                |a: TransactionAccount| with_authority(a, *authority),
            ),
        decreases transaction.accounts@.len() - i,
    {
        let acc = transaction.accounts[i];
        let is_signer = acc.is_signer || acc.pubkey == *authority;
        accounts.push(TransactionAccount { pubkey: acc.pubkey, is_signer, is_writable: acc.is_writable });
        assert(transaction.accounts@.subrange(0, i + 1) =~= transaction.accounts@.subrange(0, i as int).push(acc));
        i = i + 1;
    }
    assert(transaction.accounts@.subrange(0, transaction.accounts@.len() as int) =~= transaction.accounts@);
    Instruction { program_id: transaction.program_id, accounts, data: transaction.data.clone() }
}

/// Executes `transaction` as `execute_multisig_wallet_transaction` does and,
/// on success, hands back its deferred call signed by `authority`.
pub fn execute_with_authority(
    multisig_wallet: &MultisigWallet,
    multisig_address: &Pubkey,
    transaction: &mut Transaction,
    authority: &Pubkey,
) -> (r: Result<Instruction, ErrorCode>)
    ensures
        match r {
            Ok(ix) => execute_error(*multisig_wallet, *multisig_address, *old(transaction)) is None
                && *final(transaction) == (Transaction { did_execute: true, ..*old(transaction) })
                && ix.program_id == old(transaction).program_id && ix.data@ == old(
                transaction,
            ).data@ && ix.accounts@ == old(transaction).accounts@.map_values(
                |a: TransactionAccount| with_authority(a, *authority),
            ),
            Err(e) => execute_error(*multisig_wallet, *multisig_address, *old(transaction)) == Some(
                e,
            ) && *final(transaction) == *old(transaction),
        },
{
    execute_multisig_wallet_transaction(multisig_wallet, multisig_address, transaction)?;
    Ok(signed_instruction(transaction, authority))
}

} // verus!
