use anchor_lang::solana_program::account_info::AccountInfo;
use anchor_lang::solana_program::pubkey::Pubkey;
use anchor_lang::solana_program::rent::Rent;
use anchor_lang::solana_program::sysvar;
use membership_token::Address;
use membership_token::UtilError;
use membership_token::address_eq;
use membership_token::assert_derivation;
use membership_token::create_or_allocate_account_raw;
use membership_token::mint_edition_account_list;
use membership_token::mpl_mint_new_edition_from_master_edition_via_token;
use membership_token::puffed_out_string;
use membership_token::required_topup;
use membership_token::sized_account_list;
use membership_token::transfer_account_list;
use membership_token::try_find_trade_history_address;
use membership_token::try_find_treasury_owner_address;
use membership_token::try_find_vault_owner_address;

fn addr(seed: u8) -> Address {
    Address { bytes: [seed; 32] }
}

#[test]
fn address_eq_by_bytes() {
    assert!(address_eq(&addr(7), &addr(7)));
    assert!(!address_eq(&addr(7), &addr(8)));
    let mut one_off = addr(7);
    one_off.bytes[31] = 9;
    assert!(!address_eq(&addr(7), &one_off));
}

#[test]
fn trade_history_address_is_deterministic() {
    let pid = addr(1);
    let wallet = addr(2);
    let market = addr(3);
    let first = try_find_trade_history_address(&pid, &wallet, &market).unwrap();
    let second = try_find_trade_history_address(&pid, &wallet, &market).unwrap();
    assert_eq!(first.0.bytes, second.0.bytes);
    assert_eq!(first.1, second.1);
}

#[test]
fn trade_history_address_matches_environment_derivation() {
    let pid = addr(1);
    let wallet = addr(2);
    let market = addr(3);
    let got = try_find_trade_history_address(&pid, &wallet, &market).unwrap();
    let (expected, bump) = Pubkey::find_program_address(
        &[b"history", &wallet.bytes, &market.bytes],
        &Pubkey::new_from_array(pid.bytes),
    );
    assert_eq!(got.0.bytes, expected.to_bytes());
    assert_eq!(got.1, bump);
}

#[test]
fn treasury_owner_address_matches_environment_derivation() {
    let pid = addr(11);
    let mint = addr(12);
    let resource = addr(13);
    let got = try_find_treasury_owner_address(&pid, &mint, &resource).unwrap();
    let (expected, bump) = Pubkey::find_program_address(
        &[b"holder", &mint.bytes, &resource.bytes],
        &Pubkey::new_from_array(pid.bytes),
    );
    assert_eq!(got.0.bytes, expected.to_bytes());
    assert_eq!(got.1, bump);
}

#[test]
fn vault_owner_address_matches_environment_derivation() {
    let pid = addr(21);
    let mint = addr(22);
    let store = addr(23);
    let got = try_find_vault_owner_address(&pid, &mint, &store).unwrap();
    let (expected, bump) = Pubkey::find_program_address(
        &[b"mt_vault", &mint.bytes, &store.bytes],
        &Pubkey::new_from_array(pid.bytes),
    );
    assert_eq!(got.0.bytes, expected.to_bytes());
    assert_eq!(got.1, bump);
}

#[test]
fn distinct_inputs_give_distinct_addresses() {
    let pid = addr(1);
    let a = try_find_trade_history_address(&pid, &addr(2), &addr(3)).unwrap();
    let b = try_find_trade_history_address(&pid, &addr(4), &addr(3)).unwrap();
    let c = try_find_trade_history_address(&pid, &addr(2), &addr(5)).unwrap();
    assert_ne!(a.0.bytes, b.0.bytes);
    assert_ne!(a.0.bytes, c.0.bytes);
    let d = try_find_treasury_owner_address(&pid, &addr(2), &addr(3)).unwrap();
    assert_ne!(a.0.bytes, d.0.bytes);
}

fn history_path(wallet: &Address, market: &Address) -> Vec<Vec<u8>> {
    vec![b"history".to_vec(), wallet.bytes.to_vec(), market.bytes.to_vec()]
}

#[test]
fn assert_derivation_accepts_the_canonical_address() {
    let pid = addr(1);
    let wallet = addr(2);
    let market = addr(3);
    let (expected, bump) = Pubkey::find_program_address(
        &[b"history", &wallet.bytes, &market.bytes],
        &Pubkey::new_from_array(pid.bytes),
    );
    let account = Address { bytes: expected.to_bytes() };
    let got = assert_derivation(&pid, &account, &history_path(&wallet, &market));
    assert_eq!(got.unwrap(), bump);
}

#[test]
fn assert_derivation_rejects_any_other_address() {
    let pid = addr(1);
    let wallet = addr(2);
    let market = addr(3);
    let got = assert_derivation(&pid, &addr(42), &history_path(&wallet, &market));
    let err = got.unwrap_err();
    assert!(matches!(err, UtilError::DerivedKeyInvalid));
    assert!(err.is_derived_key_invalid());
}

#[test]
fn required_topup_exact_values() {
    assert_eq!(required_topup(10, 4), 6);
    assert_eq!(required_topup(10, 0), 10);
    assert_eq!(required_topup(0, 0), 1);
    assert_eq!(required_topup(10, 10), 0);
    assert_eq!(required_topup(10, 200), 0);
    assert_eq!(required_topup(u64::MAX, 1), u64::MAX - 1);
}

#[test]
fn puffed_out_string_pads_with_zero_bytes() {
    let padded = puffed_out_string(&"abc".to_string(), 10);
    assert_eq!(padded.len(), 10);
    assert_eq!(&padded[..3], "abc");
    assert_eq!(&padded.as_bytes()[3..], &[0u8; 7]);
    assert_eq!(padded, "abc\0\0\0\0\0\0\0");
}

#[test]
fn puffed_out_string_full_width_value_is_unchanged() {
    let padded = puffed_out_string(&"abcd".to_string(), 4);
    assert_eq!(padded, "abcd");
}

struct AccountFixture {
    key: Pubkey,
    lamports: u64,
    data: Vec<u8>,
    owner: Pubkey,
}

impl AccountFixture {
    fn new(key: Pubkey, lamports: u64, data: Vec<u8>) -> Self {
        AccountFixture { key, lamports, data, owner: Pubkey::new_from_array([0u8; 32]) }
    }

    fn info(&mut self) -> AccountInfo<'_> {
        AccountInfo::new(
            &self.key,
            false,
            true,
            &mut self.lamports,
            &mut self.data,
            &self.owner,
            false,
            0,
        )
    }
}

fn rent_sysvar_fixture() -> AccountFixture {
    let data = bincode::serialize(&Rent::default()).unwrap();
    AccountFixture::new(sysvar::rent::id(), 1, data)
}

#[test]
fn provisioner_succeeds_and_is_idempotent_off_chain() {
    let program_id = addr(9);
    let mut target = AccountFixture::new(Pubkey::new_from_array([1u8; 32]), 0, vec![]);
    let mut rent = rent_sysvar_fixture();
    let mut system = AccountFixture::new(Pubkey::new_from_array([2u8; 32]), 1, vec![]);
    let mut payer = AccountFixture::new(Pubkey::new_from_array([3u8; 32]), 1_000_000_000, vec![]);
    let seeds = vec![b"history".to_vec(), vec![255u8]];

    for _ in 0..2 {
        let r = create_or_allocate_account_raw(
            &program_id,
            &target.info(),
            &rent.info(),
            &system.info(),
            &payer.info(),
            100,
            &seeds,
        );
        assert!(r.is_ok());
    }
}

#[test]
fn provisioner_skips_funding_an_already_funded_account() {
    let program_id = addr(9);
    let minimum = Rent::default().minimum_balance(100);
    let mut target =
        AccountFixture::new(Pubkey::new_from_array([1u8; 32]), minimum, vec![]);
    let mut rent = rent_sysvar_fixture();
    let mut system = AccountFixture::new(Pubkey::new_from_array([2u8; 32]), 1, vec![]);
    let mut payer = AccountFixture::new(Pubkey::new_from_array([3u8; 32]), 0, vec![]);
    assert_eq!(required_topup(minimum, minimum), 0);
    let r = create_or_allocate_account_raw(
        &program_id,
        &target.info(),
        &rent.info(),
        &system.info(),
        &payer.info(),
        100,
        &vec![],
    );
    assert!(r.is_ok());
}

#[test]
fn provisioner_rejects_a_wrong_rent_account() {
    let program_id = addr(9);
    let mut target = AccountFixture::new(Pubkey::new_from_array([1u8; 32]), 0, vec![]);
    let mut not_rent = AccountFixture::new(Pubkey::new_from_array([4u8; 32]), 1, vec![]);
    let mut system = AccountFixture::new(Pubkey::new_from_array([2u8; 32]), 1, vec![]);
    let mut payer = AccountFixture::new(Pubkey::new_from_array([3u8; 32]), 1, vec![]);
    let r = create_or_allocate_account_raw(
        &program_id,
        &target.info(),
        &not_rent.info(),
        &system.info(),
        &payer.info(),
        100,
        &vec![],
    );
    assert!(matches!(r.unwrap_err(), UtilError::Program(_)));
}

#[test]
fn transfer_and_sized_account_lists_keep_order() {
    let mut a = AccountFixture::new(Pubkey::new_from_array([1u8; 32]), 0, vec![]);
    let mut b = AccountFixture::new(Pubkey::new_from_array([2u8; 32]), 0, vec![]);
    let mut c = AccountFixture::new(Pubkey::new_from_array([3u8; 32]), 0, vec![]);
    let (ai, bi, ci) = (a.info(), b.info(), c.info());
    let v = transfer_account_list(&ai, &bi, &ci);
    let keys: Vec<[u8; 32]> = v.iter().map(|x| x.key.to_bytes()).collect();
    assert_eq!(keys, vec![[1u8; 32], [2u8; 32], [3u8; 32]]);
    let w = sized_account_list(&bi, &ci);
    let keys: Vec<[u8; 32]> = w.iter().map(|x| x.key.to_bytes()).collect();
    assert_eq!(keys, vec![[2u8; 32], [3u8; 32]]);
}

#[test]
fn mint_edition_account_list_has_the_fourteen_accounts_in_order() {
    let mut fixtures: Vec<AccountFixture> = (1u8..=13)
        .map(|i| AccountFixture::new(Pubkey::new_from_array([i; 32]), 0, vec![]))
        .collect();
    let infos: Vec<AccountInfo<'_>> = fixtures.iter_mut().map(|f| f.info()).collect();
    let v = mint_edition_account_list(
        &infos[0], &infos[1], &infos[2], &infos[3], &infos[4], &infos[5], &infos[6], &infos[7],
        &infos[8], &infos[9], &infos[10], &infos[11], &infos[12],
    );
    assert_eq!(v.len(), 14);
    let keys: Vec<[u8; 32]> = v.iter().map(|x| x.key.to_bytes()).collect();
    let expected: Vec<[u8; 32]> = vec![
        [1u8; 32],
        [2u8; 32],
        [3u8; 32],
        [4u8; 32],
        [5u8; 32],
        [6u8; 32],
        [7u8; 32],
        [8u8; 32],
        [9u8; 32],
        [7u8; 32],
        [10u8; 32],
        [11u8; 32],
        [12u8; 32],
        [13u8; 32],
    ];
    assert_eq!(keys, expected);
}

#[test]
fn mint_invoker_submits_off_chain() {
    let mut fixtures: Vec<AccountFixture> = (1u8..=14)
        .map(|i| AccountFixture::new(Pubkey::new_from_array([i; 32]), 0, vec![]))
        .collect();
    let infos: Vec<AccountInfo<'_>> = fixtures.iter_mut().map(|f| f.info()).collect();
    let metadata_mint = addr(50);
    let seeds = vec![b"history".to_vec(), vec![255u8]];
    let r = mpl_mint_new_edition_from_master_edition_via_token(
        &infos[0],
        &infos[1],
        &infos[2],
        &infos[3],
        &infos[4],
        &infos[5],
        &infos[6],
        &infos[7],
        &infos[8],
        &metadata_mint,
        &infos[9],
        &infos[10],
        &infos[11],
        &infos[12],
        1,
        &seeds,
    );
    assert!(r.is_ok());
}
