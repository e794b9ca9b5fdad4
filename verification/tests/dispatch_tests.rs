use token_dispatch::account::AccountHandle;
use token_dispatch::dispatch::{dispatch, plan_dispatch, DelegatedCall};
use token_dispatch::error::DispatchError;

fn key(n: u8) -> [u8; 32] {
    let mut k = [0u8; 32];
    k[0] = n;
    k
}

fn spl_id() -> [u8; 32] {
    spl_token::id().to_bytes()
}

fn rent_id() -> [u8; 32] {
    solana_program::sysvar::rent::id().to_bytes()
}

#[allow(deprecated)]
fn rent_oracle_data() -> Vec<u8> {
    let rent = solana_program::rent::Rent::default();
    let mut v = Vec::new();
    v.extend_from_slice(&rent.lamports_per_byte.to_le_bytes());
    v.extend_from_slice(&rent.exemption_threshold);
    v.push(rent.burn_percent);
    v
}

fn exemption_minimum() -> u64 {
    solana_program::rent::Rent::default().minimum_balance(0)
}

fn acct(key: [u8; 32], signer: bool, lamports: u64, data: Vec<u8>) -> AccountHandle {
    AccountHandle { key, is_signer: signer, lamports, data }
}

fn base_accounts() -> Vec<AccountHandle> {
    vec![
        acct(key(1), false, 0, vec![]),
        acct(spl_id(), false, 0, vec![]),
        acct(key(3), true, 1_000_000_000, vec![]),
        acct(key(4), false, 0, vec![]),
        acct(key(5), false, 0, vec![]),
        acct(rent_id(), false, 0, rent_oracle_data()),
    ]
}

#[test]
fn initialize_mint_plans_one_call() {
    let accounts = base_accounts();
    let plan = plan_dispatch(&accounts, &vec![0]);
    assert_eq!(
        plan,
        Ok(DelegatedCall::InitializeMint {
            delegate: spl_id(),
            mint: key(4),
            authority: key(1),
            freeze_authority: None,
            decimals: 0,
        })
    );
}

#[test]
fn dispatch_initialize_mint_succeeds() {
    let accounts = base_accounts();
    assert_eq!(dispatch(&key(9), &accounts, &vec![0]), Ok(()));
}

#[test]
fn initialize_account_consumes_trailing_account() {
    let mut accounts = base_accounts();
    accounts.push(acct(key(7), false, 0, vec![]));
    let plan = plan_dispatch(&accounts, &vec![1]);
    assert_eq!(
        plan,
        Ok(DelegatedCall::InitializeAccount {
            delegate: spl_id(),
            account: key(7),
            mint: key(4),
            owner: key(5),
        })
    );
}

#[test]
fn initialize_account_without_trailing_account() {
    let accounts = base_accounts();
    assert_eq!(plan_dispatch(&accounts, &vec![1]), Err(DispatchError::NotEnoughAccounts));
}

#[test]
fn mint_to_full_width_amount() {
    let mut accounts = base_accounts();
    accounts.push(acct(key(7), false, 0, vec![]));
    let plan = plan_dispatch(&accounts, &vec![2, 0, 0, 0, 0, 0, 0, 0, 5]);
    assert_eq!(
        plan,
        Ok(DelegatedCall::MintTo {
            delegate: spl_id(),
            mint: key(4),
            destination: key(7),
            authority: key(3),
            amount: 5,
        })
    );
}

#[test]
fn mint_to_short_amount_zero_extends() {
    let mut accounts = base_accounts();
    accounts.push(acct(key(7), false, 0, vec![]));
    let plan = plan_dispatch(&accounts, &vec![2, 5]);
    assert_eq!(
        plan,
        Ok(DelegatedCall::MintTo {
            delegate: spl_id(),
            mint: key(4),
            destination: key(7),
            authority: key(3),
            amount: 5,
        })
    );
}

#[test]
fn amount_reads_at_most_eight_bytes() {
    let mut accounts = base_accounts();
    accounts.push(acct(key(7), false, 0, vec![]));
    let plan = plan_dispatch(&accounts, &vec![2, 1, 0, 0, 0, 0, 0, 0, 0, 99]);
    assert_eq!(
        plan,
        Ok(DelegatedCall::MintTo {
            delegate: spl_id(),
            mint: key(4),
            destination: key(7),
            authority: key(3),
            amount: 1 << 56,
        })
    );
}

#[test]
fn transfer_consumes_source_then_destination() {
    let mut accounts = base_accounts();
    accounts.push(acct(key(7), false, 0, vec![]));
    accounts.push(acct(key(8), false, 0, vec![]));
    let plan = plan_dispatch(&accounts, &vec![3, 0, 0, 0, 0, 0, 0, 0, 5]);
    assert_eq!(
        plan,
        Ok(DelegatedCall::Transfer {
            delegate: spl_id(),
            source: key(7),
            destination: key(8),
            authority: key(3),
            amount: 5,
        })
    );
}

#[test]
fn transfer_missing_destination() {
    let mut accounts = base_accounts();
    accounts.push(acct(key(7), false, 0, vec![]));
    assert_eq!(
        plan_dispatch(&accounts, &vec![3, 0, 0, 0, 0, 0, 0, 0, 5]),
        Err(DispatchError::NotEnoughAccounts)
    );
}

#[test]
fn wrong_delegate_refused() {
    let mut accounts = base_accounts();
    accounts[1] = acct(key(2), false, 0, vec![]);
    assert_eq!(
        dispatch(&key(9), &accounts, &vec![0]),
        Err(DispatchError::IncorrectDelegateProgram)
    );
}

#[test]
fn wrong_delegate_reported_before_missing_signature() {
    let mut accounts = base_accounts();
    accounts[1] = acct(key(2), false, 0, vec![]);
    accounts[2] = acct(key(3), false, 0, vec![]);
    assert_eq!(
        dispatch(&key(9), &accounts, &vec![0]),
        Err(DispatchError::IncorrectDelegateProgram)
    );
}

#[test]
fn missing_signature_refused() {
    let mut accounts = base_accounts();
    accounts[2] = acct(key(3), false, 1_000_000_000, vec![]);
    assert_eq!(dispatch(&key(9), &accounts, &vec![0]), Err(DispatchError::MissingSignature));
}

#[test]
fn poor_initializer_not_rent_exempt() {
    let mut accounts = base_accounts();
    accounts[2] = acct(key(3), true, 1_000, vec![]);
    assert_eq!(dispatch(&key(9), &accounts, &vec![0]), Err(DispatchError::NotRentExempt));
}

#[test]
fn exemption_boundary_matches_engine() {
    let min = exemption_minimum();
    let mut accounts = base_accounts();
    accounts[2] = acct(key(3), true, min, vec![]);
    assert_eq!(dispatch(&key(9), &accounts, &vec![0]), Ok(()));
    accounts[2] = acct(key(3), true, min - 1, vec![]);
    assert_eq!(dispatch(&key(9), &accounts, &vec![0]), Err(DispatchError::NotRentExempt));
}

#[test]
fn garbage_rent_oracle_refused() {
    let mut accounts = base_accounts();
    accounts[5] = acct(rent_id(), false, 0, vec![1, 2, 3]);
    assert_eq!(dispatch(&key(9), &accounts, &vec![0]), Err(DispatchError::InvalidRentOracle));
}

#[test]
fn empty_buffer_refused() {
    let accounts = base_accounts();
    assert_eq!(dispatch(&key(9), &accounts, &vec![]), Err(DispatchError::InvalidInstructionData));
}

#[test]
fn unknown_selector_refused() {
    let accounts = base_accounts();
    assert_eq!(dispatch(&key(9), &accounts, &vec![9]), Err(DispatchError::InvalidInstructionData));
}

#[test]
fn short_account_list_refused() {
    let mut accounts = base_accounts();
    accounts.truncate(5);
    assert_eq!(dispatch(&key(9), &accounts, &vec![0]), Err(DispatchError::NotEnoughAccounts));
}

#[test]
fn replanning_the_same_request_agrees() {
    let mut accounts = base_accounts();
    accounts.push(acct(key(7), false, 0, vec![]));
    let data = vec![2, 0, 0, 0, 0, 0, 0, 0, 5];
    let first = plan_dispatch(&accounts, &data);
    let second = plan_dispatch(&accounts, &data);
    assert_eq!(first, second);
}

fn oracle_bytes(rate: u64, threshold: [u8; 8], burn: u8) -> Vec<u8> {
    let mut v = Vec::new();
    v.extend_from_slice(&rate.to_le_bytes());
    v.extend_from_slice(&threshold);
    v.push(burn);
    v
}

#[test]
fn double_threshold_oracle_boundary() {
    // Under the doubling threshold pattern the minimum for an empty
    // account is 2 * 128 * rate.
    let mut accounts = base_accounts();
    accounts[5] = acct(rent_id(), false, 0, oracle_bytes(1000, [0, 0, 0, 0, 0, 0, 0, 64], 50));
    accounts[2] = acct(key(3), true, 256_000, vec![]);
    assert_eq!(dispatch(&key(9), &accounts, &vec![0]), Ok(()));
    accounts[2] = acct(key(3), true, 255_999, vec![]);
    assert_eq!(dispatch(&key(9), &accounts, &vec![0]), Err(DispatchError::NotRentExempt));
}

#[test]
fn out_of_range_rate_never_exempts() {
    let mut accounts = base_accounts();
    accounts[5] = acct(
        rent_id(),
        false,
        0,
        oracle_bytes(879_598_564_934, [0, 0, 0, 0, 0, 0, 0, 64], 50),
    );
    accounts[2] = acct(key(3), true, u64::MAX, vec![]);
    assert_eq!(dispatch(&key(9), &accounts, &vec![0]), Err(DispatchError::NotRentExempt));
}

#[test]
fn oversized_initializer_never_exempts() {
    let mut accounts = base_accounts();
    accounts[2] = acct(key(3), true, u64::MAX, vec![0; 10 * 1024 * 1024 + 1]);
    assert_eq!(dispatch(&key(9), &accounts, &vec![0]), Err(DispatchError::NotRentExempt));
}

#[test]
fn oracle_trailing_bytes_ignored() {
    let mut accounts = base_accounts();
    let mut data = rent_oracle_data();
    data.extend_from_slice(&[7, 7, 7]);
    accounts[5] = acct(rent_id(), false, 0, data);
    assert_eq!(dispatch(&key(9), &accounts, &vec![0]), Ok(()));
}

#[test]
fn unpriced_threshold_oracle_refused() {
    // A threshold outside the engine's two fixed patterns, with the
    // largest possible rate, is refused before the engine is consulted.
    let mut accounts = base_accounts();
    accounts[5] = acct(rent_id(), false, 0, oracle_bytes(u64::MAX, [1, 0, 0, 0, 0, 0, 0, 0], 50));
    accounts[2] = acct(key(3), true, u64::MAX, vec![]);
    assert_eq!(dispatch(&key(9), &accounts, &vec![0]), Err(DispatchError::InvalidRentOracle));
}

#[test]
fn foreign_oracle_account_refused() {
    // An account other than the rent sysvar cannot stand in as the
    // oracle, however generous the parameters it carries.
    let mut accounts = base_accounts();
    accounts[5] = acct(key(6), false, 0, oracle_bytes(0, [0, 0, 0, 0, 0, 0, 240, 63], 0));
    assert_eq!(dispatch(&key(9), &accounts, &vec![0]), Err(DispatchError::InvalidRentOracle));
}
