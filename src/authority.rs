use vstd::prelude::*;
use crate::entities::{MultisigWallet, Pubkey};

verus! {

/// The program-derived address of the seeds `[wallet, [bump]]` under
/// `program_id`, or `None` where that derivation lands on the curve.
pub uninterp spec fn program_address_of(wallet: Seq<u8>, bump: u8, program_id: Seq<u8>) -> Option<
    Seq<u8>,
>;

/// The bytes of an optional key.
pub open spec fn key_bytes(k: Option<Pubkey>) -> Option<Seq<u8>> {
    match k {
        Some(k) => Some(k.bytes@),
        None => None,
    }
}

/// The wallet's authority: the address derived from the wallet's address
/// and its derivation parameter, if there is one.
pub open spec fn authority_of(multisig_address: Pubkey, nonce: u8, program_id: Pubkey) -> Option<
    Seq<u8>,
> {
    program_address_of(multisig_address.bytes@, nonce, program_id.bytes@)
}

/// Relies on `Pubkey::create_program_address`: the address derived from the
/// two seeds `wallet` and `[bump]` under `program_id`, a function of its
/// arguments alone. Two seeds of at most 32 bytes each stay within its
/// limits.
#[verifier::external_body]
fn create_program_address(wallet: &Pubkey, bump: u8, program_id: &Pubkey) -> (r: Option<Pubkey>)
    ensures
        key_bytes(r) == program_address_of(wallet.bytes@, bump, program_id.bytes@),
{
    let program = anchor_lang::solana_program::pubkey::Pubkey::new_from_array(program_id.bytes);
    let seeds: [&[u8]; 2] = [&wallet.bytes, &[bump]];
    match anchor_lang::solana_program::pubkey::Pubkey::create_program_address(&seeds, &program) {
        Ok(k) => Some(Pubkey { bytes: k.to_bytes() }),
        Err(_) => None,
    }
}

/// The authority of the wallet at `multisig_address`, derived with its
/// derivation parameter, if the derivation succeeds.
pub fn derive_authority(
    multisig_wallet: &MultisigWallet,
    multisig_address: &Pubkey,
    program_id: &Pubkey,
) -> (r: Option<Pubkey>)
    ensures
        key_bytes(r) == authority_of(*multisig_address, multisig_wallet.nonce, *program_id),
{
    create_program_address(multisig_address, multisig_wallet.nonce, program_id)
}

/// Whether `derived`, the outcome of deriving the wallet's authority, names
/// `signer`.
pub fn is_authority(derived: Option<Pubkey>, signer: &Pubkey) -> (r: bool)
    ensures
        r == (key_bytes(derived) == Some(signer.bytes@)),
{
    match derived {
        Some(k) => {
            let same = k == *signer;
            if !same {
                assert(k.bytes@ != signer.bytes@) by {
                    if k.bytes@ == signer.bytes@ {
                        assert(k.bytes =~= signer.bytes);
                    }
                }
            }
            same
        },
        None => false,
    }
}

} // verus!
