use anchor_lang::solana_program::pubkey::Pubkey as SolanaPubkey;
use multisig::authority::{derive_authority, is_authority};
use multisig::entities::{MultisigWallet, Pubkey, TransactionAccount};
use multisig::instructions::{
    change_threshold, execute_transaction, set_data, set_owners, set_owners_and_change_threshold,
    Auth,
};
use multisig::use_cases::{
    approve, create_multisig_wallet, create_multisig_wallet_transaction, set_multisig_wallet_owners,
};
use multisig::utils::ErrorCode;

fn key(b: u8) -> Pubkey {
    Pubkey::new([b; 32])
}

const PROGRAM: u8 = 200;
const WALLET_ADDRESS: u8 = 201;

/// The authority of the wallet address under the program, and its bump.
fn pda() -> (Pubkey, u8) {
    let program = SolanaPubkey::new_from_array(key(PROGRAM).bytes);
    let (k, bump) = SolanaPubkey::find_program_address(&[&key(WALLET_ADDRESS).bytes], &program);
    (Pubkey::new(k.to_bytes()), bump)
}

fn wallet(owners: Vec<Pubkey>, threshold: u64) -> MultisigWallet {
    create_multisig_wallet(owners, threshold, pda().1).unwrap()
}

fn auth(w: MultisigWallet) -> Auth {
    Auth::new(w, &key(WALLET_ADDRESS), &key(PROGRAM), pda().0).unwrap()
}

#[test]
fn derive_authority_matches_program_address() {
    let (authority, _) = pda();
    let w = wallet(vec![key(1)], 1);
    let derived = derive_authority(&w, &key(WALLET_ADDRESS), &key(PROGRAM)).unwrap();
    assert_eq!(derived, authority);
    assert!(derived != key(WALLET_ADDRESS));
}

#[test]
fn auth_rejects_other_signer() {
    let w = wallet(vec![key(1)], 1);
    let r = Auth::new(w.clone(), &key(WALLET_ADDRESS), &key(PROGRAM), key(1));
    assert_eq!(r.err(), Some(ErrorCode::InvalidAuthority));
    let r = Auth::new(w, &key(WALLET_ADDRESS), &key(PROGRAM), pda().0);
    assert_eq!(r.unwrap().multisig_signer(), pda().0);
}

#[test]
fn quorum_scenario_executes_once() {
    let (authority, _) = pda();
    let w = wallet(vec![key(1), key(2), key(3)], 2);
    let accounts = vec![
        TransactionAccount { pubkey: authority, is_signer: false, is_writable: true },
        TransactionAccount { pubkey: key(60), is_signer: false, is_writable: false },
    ];
    let mut t = create_multisig_wallet_transaction(
        &w, &key(WALLET_ADDRESS), &key(1), key(70), accounts, vec![9, 8],
    )
    .unwrap();
    approve(&w, &key(WALLET_ADDRESS), &mut t, &key(2)).unwrap();
    let ix = execute_transaction(&w, &key(WALLET_ADDRESS), &key(PROGRAM), &pda().0, &mut t).unwrap();
    assert!(t.did_execute);
    assert_eq!(ix.program_id, key(70));
    assert_eq!(ix.data, vec![9, 8]);
    assert_eq!(ix.accounts[0].pubkey, authority);
    assert!(ix.accounts[0].is_signer);
    assert!(ix.accounts[0].is_writable);
    assert!(!ix.accounts[1].is_signer);
    let again = execute_transaction(&w, &key(WALLET_ADDRESS), &key(PROGRAM), &pda().0, &mut t);
    assert_eq!(again.unwrap_err(), ErrorCode::AlreadyExecuted);
}

#[test]
fn owner_change_scenario_invalidates_proposal() {
    let w = wallet(vec![key(1), key(2), key(3)], 2);
    let mut x = create_multisig_wallet_transaction(
        &w, &key(WALLET_ADDRESS), &key(1), key(70), vec![], vec![1],
    )
    .unwrap();
    let mut a = auth(w);
    set_owners(&mut a, vec![key(1), key(2)]).unwrap();
    let w = a.into_wallet();
    assert_eq!(w.owner_set_seqno, 1);
    approve(&w, &key(WALLET_ADDRESS), &mut x, &key(2)).unwrap();
    assert_eq!(x.signers, vec![true, true, false]);
    let r = execute_transaction(&w, &key(WALLET_ADDRESS), &key(PROGRAM), &pda().0, &mut x);
    assert_eq!(r.unwrap_err(), ErrorCode::OwnerSetChanged);
    assert!(!x.did_execute);
}

/// A wallet address whose derivation with the wallet's
/// bump fails.
fn address_without_authority(w: &MultisigWallet) -> u8 {
    (0u8..=255)
        .find(|b| derive_authority(w, &key(*b), &key(PROGRAM)).is_none())
        .expect("about half of all addresses have no derived authority")
}

#[test]
fn execute_with_bad_derivation_rejected() {
    let (_, bump) = pda();
    let w = create_multisig_wallet(vec![key(1)], 1, bump).unwrap();
    let b = address_without_authority(&w);
    let mut t = create_multisig_wallet_transaction(&w, &key(b), &key(1), key(70), vec![], vec![]).unwrap();
    let r = execute_transaction(&w, &key(b), &key(PROGRAM), &pda().0, &mut t);
    assert_eq!(r.unwrap_err(), ErrorCode::InvalidAuthority);
    assert!(!t.did_execute);
}

#[test]
fn execute_with_wrong_signer_rejected() {
    let w = wallet(vec![key(1)], 1);
    let mut t = create_multisig_wallet_transaction(&w, &key(WALLET_ADDRESS), &key(1), key(70), vec![], vec![]).unwrap();
    let r = execute_transaction(&w, &key(WALLET_ADDRESS), &key(PROGRAM), &key(1), &mut t);
    assert_eq!(r.unwrap_err(), ErrorCode::InvalidAuthority);
    assert!(!t.did_execute);
    execute_transaction(&w, &key(WALLET_ADDRESS), &key(PROGRAM), &pda().0, &mut t).unwrap();
    assert!(t.did_execute);
}

#[test]
fn execute_checks_come_before_derivation() {
    let (_, bump) = pda();
    let mut w = create_multisig_wallet(vec![key(1), key(2)], 1, bump).unwrap();
    let b = address_without_authority(&w);
    let mut t = create_multisig_wallet_transaction(&w, &key(b), &key(1), key(70), vec![], vec![]).unwrap();
    // another wallet's transaction
    let r = execute_transaction(&w, &key(WALLET_ADDRESS), &key(PROGRAM), &pda().0, &mut t);
    assert_eq!(r.unwrap_err(), ErrorCode::InvalidMultisig);
    // a stale transaction on a wallet whose derivation fails
    set_multisig_wallet_owners(&mut w, vec![key(1)]).unwrap();
    let r = execute_transaction(&w, &key(b), &key(PROGRAM), &pda().0, &mut t);
    assert_eq!(r.unwrap_err(), ErrorCode::OwnerSetChanged);
    assert!(!t.did_execute);
}

#[test]
fn governance_through_auth() {
    let mut a = auth(wallet(vec![key(1), key(2), key(3)], 3));
    set_owners(&mut a, vec![key(1), key(2)]).unwrap();
    assert_eq!(a.multisig_wallet().threshold, 2);
    assert_eq!(change_threshold(&mut a, 3).unwrap_err(), ErrorCode::InvalidThreshold);
    change_threshold(&mut a, 1).unwrap();
    assert_eq!(a.multisig_wallet().threshold, 1);
    set_owners_and_change_threshold(&mut a, vec![key(4), key(5), key(6)], 3).unwrap();
    assert_eq!(a.multisig_wallet().owners, vec![key(4), key(5), key(6)]);
    assert_eq!(a.multisig_wallet().threshold, 3);
    assert_eq!(a.multisig_wallet().owner_set_seqno, 2);
    set_data(&mut a, Some("ops".to_string()));
    assert_eq!(a.multisig_wallet().data.as_deref(), Some("ops"));
    assert_eq!(a.multisig_signer(), pda().0);
}

#[test]
fn is_authority_compares_derived_key() {
    assert!(is_authority(Some(key(4)), &key(4)));
    assert!(!is_authority(Some(key(4)), &key(5)));
    assert!(!is_authority(None, &key(4)));
}
