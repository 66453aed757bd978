use vstd::prelude::*;
use crate::entities::{Pubkey, no_dup, count_true};

verus! {

/// The ways an operation on a wallet or a transaction is rejected.
#[derive(Clone, Copy, Debug, PartialEq, Eq, Structural)]
pub enum ErrorCode {
    /// The given key is not one of the wallet's owners.
    InvalidOwner,
    /// The owner list is empty.
    InvalidOwnersLen,
    /// Fewer owners approved than the threshold asks for.
    NotEnoughSigners,
    TransactionAlreadySigned,
    /// The owner-set version cannot be incremented any further.
    Overflow,
    UnableToDelete,
    /// The transaction has already been executed.
    AlreadyExecuted,
    /// The threshold is zero or above the number of owners.
    InvalidThreshold,
    /// The owner list holds a key twice.
    UniqueOwners,
    /// The owner set changed since the transaction was proposed.
    OwnerSetChanged,
    /// The presented signer is not the wallet's derived authority.
    InvalidAuthority,
    /// The transaction belongs to another wallet.
    InvalidMultisig,
}

/// Rejects an owner list that holds a key twice.
pub fn assert_unique_owners(owners: &[Pubkey]) -> (r: Result<(), ErrorCode>)
    ensures
        r is Ok <==> no_dup(owners@),
        r is Err ==> r == Err::<(), ErrorCode>(ErrorCode::UniqueOwners),
{
    let n = owners.len();
    let mut i: usize = 0;
    while i < n
        invariant
            n == owners@.len(),
            0 <= i <= n,
            forall|a: int, b: int| 0 <= a < i && a < b < n ==> owners@[a] != owners@[b],
        decreases n - i,
    {
        let mut j: usize = i + 1;
        while j < n
            invariant
                n == owners@.len(),
                0 <= i < n,
                i + 1 <= j <= n,
                forall|a: int, b: int| 0 <= a < i && a < b < n ==> owners@[a] != owners@[b],
                forall|b: int| i < b < j ==> owners@[i as int] != owners@[b],
            decreases n - j,
        {
            if owners[i] == owners[j] {
                return Err(ErrorCode::UniqueOwners);
            }
            j = j + 1;
        }
        i = i + 1;
    }
    Ok(())
}

/// The first position of `key` in `owners`, if any.
pub fn owner_position(owners: &Vec<Pubkey>, key: &Pubkey) -> (r: Option<usize>)
    ensures
        r is None <==> !owners@.contains(*key),
        r matches Some(i) ==> i < owners@.len() && owners@[i as int] == *key && forall|j: int|
            0 <= j < i ==> owners@[j] != *key,
{
    let mut i: usize = 0;
    while i < owners.len()
        invariant
            0 <= i <= owners@.len(),
            forall|j: int| 0 <= j < i ==> owners@[j] != *key,
        decreases owners@.len() - i,
    {
        if owners[i] == *key {
            return Some(i);
        }
        i = i + 1;
    }
    None
}

/// The number of approvals recorded in `signers`.
pub fn count_signers(signers: &Vec<bool>) -> (r: u64)
    ensures
        r == count_true(signers@),
{
    let mut count: u64 = 0;
    let mut i: usize = 0;
    while i < signers.len()
        invariant
            0 <= i <= signers@.len(),
            count == count_true(signers@.subrange(0, i as int)),
            count <= i,
        decreases signers@.len() - i,
    {
        assert(signers@.subrange(0, i + 1).drop_last() =~= signers@.subrange(0, i as int));
        if signers[i] {
            count = count + 1;
        }
        i = i + 1;
    }
    assert(signers@.subrange(0, signers@.len() as int) =~= signers@);
    count
}

} // verus!
