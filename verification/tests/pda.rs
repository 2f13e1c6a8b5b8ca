use anchor_lang::prelude::Pubkey as LedgerKey;
use pump::pubkey::Pubkey;
use pump::states::{BondingCurve, Config};

fn program_id() -> LedgerKey {
    LedgerKey::new_from_array([
        173, 12, 5, 90, 1, 33, 200, 17, 8, 64, 99, 250, 3, 77, 140, 21, 6, 58, 111, 9, 230, 45,
        18, 2, 87, 160, 29, 71, 5, 14, 201, 66,
    ])
}

#[test]
fn seed_prefixes() {
    assert_eq!(Config::SEED_PREFIX, "global-config");
    assert_eq!(BondingCurve::SEED_PREFIX, "bonding-curve");
}

#[test]
fn signer_seeds_are_tag_mint_and_bump() {
    let mint = LedgerKey::new_unique();
    let seeds = BondingCurve::get_signer(&Pubkey::new_from_array(mint.to_bytes()), &251);
    assert_eq!(seeds, vec![b"bonding-curve".to_vec(), mint.to_bytes().to_vec(), vec![251u8]]);
}

#[test]
fn curve_address_is_the_ledgers_derived_address() {
    let mint = LedgerKey::new_unique();
    let pid = program_id();
    let (address, bump) =
        LedgerKey::find_program_address(&[b"bonding-curve", mint.as_ref()], &pid);
    let found = BondingCurve::find_address(
        &Pubkey::new_from_array(mint.to_bytes()),
        &Pubkey::new_from_array(pid.to_bytes()),
    );
    assert_eq!(found, Some((Pubkey::new_from_array(address.to_bytes()), bump)));
    assert_ne!(address.to_bytes(), mint.to_bytes());
    assert_ne!(address.to_bytes(), pid.to_bytes());
}

#[test]
fn curve_signer_seeds_sign_for_the_curve_address() {
    let mint = Pubkey::new_from_array(LedgerKey::new_unique().to_bytes());
    let pid = program_id();
    let (address, bump) =
        BondingCurve::find_address(&mint, &Pubkey::new_from_array(pid.to_bytes())).unwrap();
    let seeds = BondingCurve::get_signer(&mint, &bump);
    let parts: Vec<&[u8]> = seeds.iter().map(|seed| seed.as_slice()).collect();
    let signed_for = LedgerKey::create_program_address(&parts, &pid).unwrap();
    assert_eq!(signed_for.to_bytes(), address.to_bytes());
}

#[test]
fn config_address_is_the_ledgers_derived_address() {
    let pid = program_id();
    let (address, bump) = LedgerKey::find_program_address(&[b"global-config"], &pid);
    let found = Config::find_address(&Pubkey::new_from_array(pid.to_bytes()));
    assert_eq!(found, Some((Pubkey::new_from_array(address.to_bytes()), bump)));
}

#[test]
fn addresses_differ_by_mint_and_by_program() {
    let pid = Pubkey::new_from_array(program_id().to_bytes());
    let other = Pubkey::new_from_array(LedgerKey::new_unique().to_bytes());
    let first = Pubkey::new_from_array(LedgerKey::new_unique().to_bytes());
    let second = Pubkey::new_from_array(LedgerKey::new_unique().to_bytes());
    let a = BondingCurve::find_address(&first, &pid).unwrap();
    let b = BondingCurve::find_address(&second, &pid).unwrap();
    let c = BondingCurve::find_address(&first, &other).unwrap();
    assert_ne!(a.0, b.0);
    assert_ne!(a.0, c.0);
    assert_eq!(a, BondingCurve::find_address(&first, &pid).unwrap());
}
