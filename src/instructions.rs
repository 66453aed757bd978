use vstd::prelude::*;
use crate::authority::{authority_of, derive_authority, is_authority};
use crate::entities::{Instruction, MultisigWallet, Pubkey, Transaction, TransactionAccount};
use crate::use_cases::{
    change_multisig_wallet_threshold, check_execution, execute_error, execute_with_authority,
    set_multisig_wallet_data, set_multisig_wallet_owners, set_multisig_wallet_owners_and_threshold,
    set_owners_error, threshold_after, threshold_error, with_authority,
};
use crate::utils::ErrorCode;

verus! {

/// A wallet together with the authority that signed for it: the capability
/// that the wallet's self-governance operations require. Only `Auth::new`
/// makes one, from a signer that the derivation confirms.
pub struct Auth {
    multisig_wallet: MultisigWallet,
    multisig_signer: Pubkey,
}

impl Auth {
    pub closed spec fn wallet(&self) -> MultisigWallet {
        self.multisig_wallet
    }

    pub closed spec fn signer(&self) -> Pubkey {
        self.multisig_signer
    }

    /// Grants the capability where `multisig_signer` is the authority derived
    /// from `multisig_address` and the wallet's derivation parameter;
    /// otherwise rejects with `InvalidAuthority`.
    pub fn new(
        multisig_wallet: MultisigWallet,
        multisig_address: &Pubkey,
        program_id: &Pubkey,
        multisig_signer: Pubkey,
    ) -> (r: Result<Auth, ErrorCode>)
        ensures
            match r {
                Ok(a) => authority_of(*multisig_address, multisig_wallet.nonce, *program_id)
                    == Some(multisig_signer.bytes@) && a.wallet() == multisig_wallet
                    && a.signer() == multisig_signer,
                Err(e) => e == ErrorCode::InvalidAuthority && authority_of(
                    *multisig_address,
                    multisig_wallet.nonce,
                    *program_id,
                ) != Some(multisig_signer.bytes@),
            },
    {
        let derived = derive_authority(&multisig_wallet, multisig_address, program_id);
        if is_authority(derived, &multisig_signer) {
            Ok(Auth { multisig_wallet, multisig_signer })
        } else {
            Err(ErrorCode::InvalidAuthority)
        }
    }

    /// The wallet.
    pub fn multisig_wallet(&self) -> (r: &MultisigWallet)
        ensures
            *r == self.wallet(),
    {
        &self.multisig_wallet
    }

    /// The authority that signed.
    pub fn multisig_signer(&self) -> (r: Pubkey)
        ensures
            r == self.signer(),
    {
        self.multisig_signer
    }

    /// Gives the wallet back.
    pub fn into_wallet(self) -> (r: MultisigWallet)
        ensures
            r == self.wallet(),
    {
        self.multisig_wallet
    }
}

/// Replaces the wallet's owners, as `set_multisig_wallet_owners` does.
pub fn set_owners(ctx: &mut Auth, owners: Vec<Pubkey>) -> (r: Result<(), ErrorCode>)
    ensures
        final(ctx).signer() == old(ctx).signer(),
        match r {
            Ok(()) => set_owners_error(old(ctx).wallet(), owners@) is None
                && final(ctx).wallet().owners@ == owners@ && final(ctx).wallet().threshold
                == threshold_after(old(ctx).wallet().threshold, owners@.len())
                && final(ctx).wallet().owner_set_seqno == old(ctx).wallet().owner_set_seqno + 1
                && final(ctx).wallet().nonce == old(ctx).wallet().nonce
                && final(ctx).wallet().data == old(ctx).wallet().data,
            Err(e) => set_owners_error(old(ctx).wallet(), owners@) == Some(e) && *final(ctx)
                == *old(ctx),
        },
        old(ctx).wallet().wf() ==> final(ctx).wallet().wf(),
{
    set_multisig_wallet_owners(&mut ctx.multisig_wallet, owners)
}

/// Changes the wallet's threshold, as `change_multisig_wallet_threshold` does.
pub fn change_threshold(ctx: &mut Auth, threshold: u64) -> (r: Result<(), ErrorCode>)
    ensures
        final(ctx).signer() == old(ctx).signer(),
        match r {
            Ok(()) => threshold_error(old(ctx).wallet().owners@.len(), threshold) is None
                && final(ctx).wallet() == (MultisigWallet { threshold, ..old(ctx).wallet() }),
            Err(e) => threshold_error(old(ctx).wallet().owners@.len(), threshold) == Some(e)
                && *final(ctx) == *old(ctx),
        },
        old(ctx).wallet().wf() ==> final(ctx).wallet().wf(),
{
    change_multisig_wallet_threshold(&mut ctx.multisig_wallet, threshold)
}

/// Replaces owners and threshold at once, as
/// `set_multisig_wallet_owners_and_threshold` does.
pub fn set_owners_and_change_threshold(ctx: &mut Auth, owners: Vec<Pubkey>, threshold: u64) -> (r:
    Result<(), ErrorCode>)
    ensures
        final(ctx).signer() == old(ctx).signer(),
        match r {
            Ok(()) => set_owners_error(old(ctx).wallet(), owners@) is None && threshold_error(
                owners@.len(),
                threshold,
            ) is None && final(ctx).wallet().owners@ == owners@ && final(ctx).wallet().threshold
                == threshold && final(ctx).wallet().owner_set_seqno == old(
                ctx,
            ).wallet().owner_set_seqno + 1 && final(ctx).wallet().nonce == old(ctx).wallet().nonce
                && final(ctx).wallet().data == old(ctx).wallet().data && final(ctx).wallet().wf(),
            Err(e) => *final(ctx) == *old(ctx) && if set_owners_error(
                old(ctx).wallet(),
                owners@,
            ) is Some {
                set_owners_error(old(ctx).wallet(), owners@) == Some(e)
            } else {
                threshold_error(owners@.len(), threshold) == Some(e)
            },
        },
{
    set_multisig_wallet_owners_and_threshold(&mut ctx.multisig_wallet, owners, threshold)
}

/// Replaces the wallet's metadata.
pub fn set_data(ctx: &mut Auth, data: Option<String>)
    ensures
        final(ctx).signer() == old(ctx).signer(),
        final(ctx).wallet() == (MultisigWallet { data, ..old(ctx).wallet() }),
{
    set_multisig_wallet_data(&mut ctx.multisig_wallet, data)
}

/// Executes `transaction` on behalf of the wallet at `multisig_address`,
/// in this order: the checks of `check_execution`, which change nothing;
/// then the derivation of the wallet's authority, which must give
/// `multisig_signer` (else `InvalidAuthority`); then the transaction is
/// marked executed and its deferred call handed back, signed by that
/// authority.
pub fn execute_transaction(
    multisig_wallet: &MultisigWallet,
    multisig_address: &Pubkey,
    program_id: &Pubkey,
    multisig_signer: &Pubkey,
    transaction: &mut Transaction,
) -> (r: Result<Instruction, ErrorCode>)
    ensures
        match r {
            Ok(ix) => execute_error(*multisig_wallet, *multisig_address, *old(transaction)) is None
                && authority_of(*multisig_address, multisig_wallet.nonce, *program_id) == Some(
                multisig_signer.bytes@,
            ) && *final(transaction) == (Transaction { did_execute: true, ..*old(transaction) })
                && ix.program_id == old(transaction).program_id && ix.data@ == old(
                transaction,
            ).data@ && ix.accounts@ == old(transaction).accounts@.map_values(
                |a: TransactionAccount| with_authority(a, *multisig_signer),
            ),
            Err(e) => *final(transaction) == *old(transaction) && if execute_error(
                *multisig_wallet,
                *multisig_address,
                *old(transaction),
            ) is Some {
                execute_error(*multisig_wallet, *multisig_address, *old(transaction)) == Some(e)
            } else {
                e == ErrorCode::InvalidAuthority && authority_of(
                    *multisig_address,
                    multisig_wallet.nonce,
                    *program_id,
                ) != Some(multisig_signer.bytes@)
            },
        },
{
    check_execution(multisig_wallet, multisig_address, transaction)?;
    let derived = derive_authority(multisig_wallet, multisig_address, program_id);
    if !is_authority(derived, multisig_signer) {
        return Err(ErrorCode::InvalidAuthority);
    }
    execute_with_authority(multisig_wallet, multisig_address, transaction, multisig_signer)
}

} // verus!
