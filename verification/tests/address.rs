use floor_swap::account_info::AccountInfo;
use floor_swap::assertions::{assert_pda, assert_pda_with_bump, check_pda};
use floor_swap::error::{FloorSwapError, ProgramError};
use floor_swap::invocation::PoolSigner;
use floor_swap::pubkey::Pubkey;
use floor_swap::state::pool::Pool;
use std::str::FromStr;

fn key(n: u8) -> Pubkey {
    Pubkey::new_from_array([n; 32])
}

fn account_at(key: Pubkey) -> AccountInfo {
    AccountInfo {
        key,
        lamports: 0,
        data: Vec::new(),
        owner: floor_swap::system_program::id(),
        is_signer: false,
        is_writable: true,
    }
}

fn outside(key: &Pubkey) -> solana_program::pubkey::Pubkey {
    solana_program::pubkey::Pubkey::new_from_array(key.to_bytes())
}

const INVALID_PDA: Result<u8, ProgramError> =
    Err(ProgramError::Custom(FloorSwapError::InvalidDerivedAddress));

#[test]
fn program_addresses_are_the_known_ones() {
    let own = solana_program::pubkey::Pubkey::from_str(
        "FSWAP98yr51moUvni9iv32ptFY43KEPBBkNk28tZunr7",
    )
    .unwrap();
    assert_eq!(floor_swap::id().to_bytes(), own.to_bytes());
    assert_eq!(floor_swap::ID_BYTES, own.to_bytes());
    assert_eq!(
        floor_swap::system_program::id().to_bytes(),
        solana_program::system_program::id().to_bytes()
    );
    assert_eq!(floor_swap::core_asset::id().to_bytes(), mpl_core::ID.to_bytes());
    assert!(floor_swap::check_id(&floor_swap::id()));
    assert!(!floor_swap::check_id(&key(1)));
    assert!(floor_swap::system_program::check_id(&Pubkey::new_from_array([0; 32])));
    assert!(!floor_swap::system_program::check_id(&floor_swap::id()));
}

#[test]
fn addresses_compare_by_their_bytes() {
    let mut bytes = [5u8; 32];
    assert_eq!(Pubkey::new_from_array(bytes), key(5));
    bytes[31] = 6;
    assert_ne!(Pubkey::new_from_array(bytes), key(5));
    assert_eq!(Pubkey::new_from_array(bytes).to_bytes(), bytes);
    assert_eq!(Pubkey::new_from_array(bytes).as_ref(), &bytes[..]);
}

#[test]
fn seeds_are_prefix_authority_collection() {
    let authority = key(3);
    let collection = key(2);
    let seeds = Pool::seeds(&authority, &collection);
    assert_eq!(seeds.len(), 3);
    assert_eq!(seeds[0], b"floor_swap");
    assert_eq!(seeds[1], &[3u8; 32][..]);
    assert_eq!(seeds[2], &[2u8; 32][..]);
}

#[test]
fn find_pda_is_the_runtime_derivation() {
    for n in 0..20u8 {
        let authority = key(n);
        let collection = key(n.wrapping_mul(7).wrapping_add(1));
        let expected = solana_program::pubkey::Pubkey::find_program_address(
            &[b"floor_swap", &authority.to_bytes(), &collection.to_bytes()],
            &outside(&floor_swap::id()),
        );
        let (address, bump) = Pool::find_pda(&authority, &collection).unwrap();
        assert_eq!(address.to_bytes(), expected.0.to_bytes());
        assert_eq!(bump, expected.1);
    }
}

#[test]
fn find_pda_is_repeatable_and_tells_inputs_apart() {
    let first = Pool::find_pda(&key(3), &key(2));
    assert_eq!(first, Pool::find_pda(&key(3), &key(2)));
    assert_ne!(first.unwrap().0, Pool::find_pda(&key(4), &key(2)).unwrap().0);
    assert_ne!(first.unwrap().0, Pool::find_pda(&key(3), &key(5)).unwrap().0);
    assert_ne!(first.unwrap().0, Pool::find_pda(&key(2), &key(3)).unwrap().0);
}

#[test]
fn assert_pda_accepts_the_derived_address_only() {
    let (authority, collection) = (key(3), key(2));
    let (address, bump) = Pool::find_pda(&authority, &collection).unwrap();
    let seeds = Pool::seeds(&authority, &collection);
    let id = floor_swap::id();
    assert_eq!(assert_pda("pool", &account_at(address), &id, &seeds), Ok(bump));
    assert_eq!(assert_pda("pool", &account_at(key(9)), &id, &seeds), INVALID_PDA);

    let (other, _) = Pool::find_pda(&key(4), &key(2)).unwrap();
    assert_eq!(assert_pda("pool", &account_at(other), &id, &seeds), INVALID_PDA);
    assert_eq!(assert_pda("pool", &account_at(address), &key(1), &seeds), INVALID_PDA);
}

#[test]
fn check_pda_on_each_outcome_of_a_search() {
    assert_eq!(check_pda(&key(7), Some((key(7), 254))), Ok(254));
    assert_eq!(check_pda(&key(7), Some((key(8), 254))), INVALID_PDA);
    assert_eq!(check_pda(&key(7), None), INVALID_PDA);
}

#[test]
fn too_many_seeds_derive_nothing() {
    let seed = [1u8];
    let seeds: Vec<&[u8]> = vec![&seed[..]; 16];
    assert_eq!(
        assert_pda("pool", &account_at(key(9)), &floor_swap::id(), &seeds),
        INVALID_PDA
    );
}

#[test]
fn bump_seed_derives_the_address_directly() {
    let (authority, collection) = (key(3), key(2));
    let (address, bump) = Pool::find_pda(&authority, &collection).unwrap();
    let mut seeds = Pool::seeds(&authority, &collection);
    let bump_seed = [bump];
    seeds.push(&bump_seed);
    let id = floor_swap::id();
    assert_eq!(assert_pda_with_bump("pool", &account_at(address), &id, &seeds), Ok(()));
    assert_eq!(
        assert_pda_with_bump("pool", &account_at(key(9)), &id, &seeds),
        Err(ProgramError::Custom(FloorSwapError::InvalidDerivedAddress))
    );
}

#[test]
fn signer_seeds_are_the_pool_seeds_and_the_bump() {
    let (address, bump) = Pool::find_pda(&key(3), &key(2)).unwrap();
    let signer = PoolSigner { authority: key(3), collection: key(2), bump };
    let seeds = signer.seeds();
    assert_eq!(seeds, vec![b"floor_swap".to_vec(), vec![3u8; 32], vec![2u8; 32], vec![bump]]);
    let slices: Vec<&[u8]> = seeds.iter().map(|seed| seed.as_slice()).collect();
    let derived = solana_program::pubkey::Pubkey::create_program_address(
        &slices,
        &outside(&floor_swap::id()),
    )
    .unwrap();
    assert_eq!(derived.to_bytes(), address.to_bytes());
}

#[test]
fn a_bump_seed_above_the_one_found_derives_nothing() {
    let id = floor_swap::id();
    let mut tried = 0;
    for n in 0..=255u8 {
        let (address, bump) = Pool::find_pda(&key(n), &key(2)).unwrap();
        if bump == 255 {
            continue;
        }
        let authority = key(n);
        let collection = key(2);
        let mut seeds = Pool::seeds(&authority, &collection);
        let above = [255u8];
        seeds.push(&above);
        assert_eq!(
            assert_pda_with_bump("pool", &account_at(address), &id, &seeds),
            Err(ProgramError::InvalidSeeds)
        );
        tried += 1;
    }
    assert!(tried > 0);
}

#[test]
fn seeds_beyond_the_limits_are_refused() {
    let id = floor_swap::id();
    let long = [0u8; 33];
    assert_eq!(
        assert_pda_with_bump("pool", &account_at(key(9)), &id, &[&long[..]]),
        Err(ProgramError::MaxSeedLengthExceeded)
    );
    let seed = [1u8];
    let many: Vec<&[u8]> = vec![&seed[..]; 17];
    assert_eq!(
        assert_pda_with_bump("pool", &account_at(key(9)), &id, &many),
        Err(ProgramError::MaxSeedLengthExceeded)
    );
    let most: Vec<&[u8]> = vec![&seed[..]; 16];
    let r = assert_pda_with_bump("pool", &account_at(key(9)), &id, &most);
    assert!(
        r == Err(ProgramError::InvalidSeeds)
            || r == Err(ProgramError::Custom(FloorSwapError::InvalidDerivedAddress))
    );
}
