use vstd::prelude::*;

verus! {

broadcast use {vstd::array::group_array_axioms};

/// A 32-byte identity key: an owner, a program or an account.
#[derive(Clone, Copy, Debug)]
pub struct Pubkey {
    pub bytes: [u8; 32],
}

impl Pubkey {
    pub fn new(bytes: [u8; 32]) -> (r: Pubkey)
        ensures
            r.bytes == bytes,
    {
        Pubkey { bytes }
    }
}

impl PartialEq for Pubkey {
    fn eq(&self, other: &Pubkey) -> (r: bool)
        ensures
            r == (*self == *other),
    {
        let mut i: usize = 0;
        while i < 32
            invariant
                0 <= i <= 32,
                forall|j: int| 0 <= j < i ==> self.bytes[j] == other.bytes[j],
            decreases 32 - i,
        {
            if self.bytes[i] != other.bytes[i] {
                return false;
            }
            i = i + 1;
        }
        assert(self.bytes =~= other.bytes);
        true
    }
}

impl vstd::std_specs::cmp::PartialEqSpecImpl for Pubkey {
    open spec fn obeys_eq_spec() -> bool {
        true
    }

    open spec fn eq_spec(&self, other: &Pubkey) -> bool {
        *self == *other
    }
}

impl Eq for Pubkey {}

/// One parameter of a deferred call: an account key and its two flags.
#[derive(Clone, Copy, Debug)]
pub struct TransactionAccount {
    pub pubkey: Pubkey,
    pub is_signer: bool,
    pub is_writable: bool,
}

/// The governance record: owners, approval threshold, the derivation
/// parameter of the wallet's authority, the owner-set version and metadata.
#[derive(Clone, Debug)]
pub struct MultisigWallet {
    pub owners: Vec<Pubkey>,
    pub threshold: u64,
    pub nonce: u8,
    pub owner_set_seqno: u32,
    pub data: Option<String>,
}

/// A proposed action: the deferred call, one approval flag per owner slot of
/// the owner set it was proposed under, and whether it has run.
#[derive(Clone, Debug)]
pub struct Transaction {
    /// The wallet this transaction belongs to.
    pub multisig: Pubkey,
    /// Target program of the deferred call.
    pub program_id: Pubkey,
    /// Parameters of the deferred call.
    pub accounts: Vec<TransactionAccount>,
    /// Argument data of the deferred call.
    pub data: Vec<u8>,
    /// `signers[i]` is true iff `owners[i]` of the proposal's owner set approved.
    pub signers: Vec<bool>,
    /// Set once, by the one successful execution.
    pub did_execute: bool,
    /// The wallet's owner-set version when the transaction was proposed.
    pub owner_set_seqno: u32,
}

/// The deferred call as it is handed to the host for invocation.
#[derive(Clone, Debug)]
pub struct Instruction {
    pub program_id: Pubkey,
    pub accounts: Vec<TransactionAccount>,
    pub data: Vec<u8>,
}

/// No key occurs twice in `s`.
pub open spec fn no_dup(s: Seq<Pubkey>) -> bool {
    forall|i: int, j: int| 0 <= i < j < s.len() ==> s[i] != s[j]
}

/// The number of `true` entries of `s`.
pub open spec fn count_true(s: Seq<bool>) -> nat
    decreases s.len(),
{
    if s.len() == 0 {
        0
    } else {
        count_true(s.drop_last()) + if s.last() {
            1nat
        } else {
            0nat
        }
    }
}

impl MultisigWallet {
    /// The wallet's invariant: owners non-empty and pairwise distinct, and
    /// `1 <= threshold <= owners.len()`.
    pub open spec fn wf(&self) -> bool {
        &&& self.owners@.len() > 0
        &&& no_dup(self.owners@)
        &&& 1 <= self.threshold <= self.owners@.len()
    }
}

} // verus!
