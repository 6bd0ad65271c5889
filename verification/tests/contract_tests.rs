use paras_vesting_contract::errors::VestingError;
use paras_vesting_contract::monthly::Contract;

const FIVE_HUNDRED_THOUSAND_PARAS_TOKEN: u128 = 500_000_000_000_000_000_000_000_000_000;
const TOTAL_AMOUNT: u128 = FIVE_HUNDRED_THOUSAND_PARAS_TOKEN;

// in nanoseconds
const ONE_MONTH: u64 = 2629746000000000;
const TWO_YEARS: u64 = ONE_MONTH * 12 * 2;
const JUNE_1_2021: u64 = 1622505600000000000; // Tuesday, June 1, 2021 12:00:00 AM GMT
const ONE_DAY: u64 = 86400000000000;
const SIX_MONTHS: u64 = ONE_MONTH * 6;

fn accounts(id: usize) -> String {
    ["alice", "bob", "charlie", "danny", "eugene", "fargo"][id].to_string()
}

fn setup_contract() -> Contract {
    Contract::new(
        accounts(1),
        accounts(3),
        accounts(2),
        TOTAL_AMOUNT,
        JUNE_1_2021,
        TWO_YEARS,
        SIX_MONTHS,
        true,
        0,
    )
    .unwrap()
}

#[test]
fn test_new() {
    let contract = Contract::new(
        accounts(1),
        accounts(3),
        accounts(2),
        TOTAL_AMOUNT,
        JUNE_1_2021,
        TWO_YEARS,
        SIX_MONTHS,
        false,
        0,
    )
    .unwrap();
    assert_eq!(contract.owner(), accounts(1));
    assert_eq!(contract.recipient(), accounts(3));
    assert_eq!(contract.token(), accounts(2));
    assert_eq!(contract.amount(), TOTAL_AMOUNT);
    assert_eq!(contract.amount_claimed(), 0);
    assert_eq!(contract.start(), JUNE_1_2021);
    assert_eq!(contract.cliff(), JUNE_1_2021 + SIX_MONTHS);
    assert_eq!(contract.duration(), TWO_YEARS);
    assert_eq!(contract.revocable(), false);
    assert_eq!(contract.is_active, true);
}

#[test]
fn test_calculate_amount_vested() {
    let contract = setup_contract();

    // before the vesting even starts
    let amount_vested = contract.calculate_amount_vested(1618109122863866400);
    assert_eq!(amount_vested, 0);

    // after start before cliff ONE DAY
    let amount_vested = contract.calculate_amount_vested(contract.start + ONE_DAY);
    assert_eq!(amount_vested, 0);

    // after start before cliff ONE MONTH
    let amount_vested = contract.calculate_amount_vested(contract.start + ONE_MONTH);
    assert_eq!(amount_vested, 0);

    // after cliff after ONE_DAY*29
    let amount_per_month: u128 = TOTAL_AMOUNT / ((contract.duration / ONE_MONTH) as u128);
    let amount_vested = contract.calculate_amount_vested(contract.cliff + ONE_DAY * 29);
    let elapsed_month: u128 = ((contract.cliff - contract.start) / ONE_MONTH) as u128;
    assert_eq!(amount_vested, amount_per_month * elapsed_month);

    // after cliff after ONE MONTH
    let amount_vested = contract.calculate_amount_vested(contract.cliff + ONE_MONTH);
    let elapsed_month: u128 = ((contract.cliff + ONE_MONTH - contract.start) / ONE_MONTH) as u128;
    assert_eq!(amount_vested, amount_per_month * elapsed_month);

    // after cliff after ONE MONTH + 29 days
    let amount_vested = contract.calculate_amount_vested(contract.cliff + ONE_MONTH + ONE_DAY * 29);
    let elapsed_month: u128 = ((contract.cliff + ONE_MONTH - contract.start) / ONE_MONTH) as u128;
    assert_eq!(amount_vested, amount_per_month * elapsed_month);

    // after cliff after duration (vesting over)
    let amount_vested = contract.calculate_amount_vested(contract.cliff + contract.duration + 1);
    assert_eq!(amount_vested, TOTAL_AMOUNT);
}

#[test]
fn test_claim_vested() {
    let mut contract = setup_contract();

    let releasable_amount = contract.releasable_amount(contract.cliff - 1).unwrap();
    assert_eq!(releasable_amount, 0);

    let amount_per_month: u128 = TOTAL_AMOUNT / ((contract.duration / ONE_MONTH) as u128);
    let now = contract.cliff + ONE_MONTH;
    let releasable_amount = contract.releasable_amount(now).unwrap();
    let elapsed_month: u128 = ((contract.cliff + ONE_MONTH - contract.start) / ONE_MONTH) as u128;
    assert_eq!(releasable_amount, amount_per_month * elapsed_month);

    // claim
    contract.claim_vested(&accounts(3), now).unwrap();
    assert_eq!(contract.amount_claimed, amount_per_month * elapsed_month);

    // the next month
    let now = contract.cliff + ONE_MONTH * 2;
    let releasable_amount = contract.releasable_amount(now).unwrap();
    assert_eq!(releasable_amount, amount_per_month);

    // claim
    contract.claim_vested(&accounts(3), now).unwrap();
    assert_eq!(contract.amount_claimed, amount_per_month * (1 + elapsed_month));

    // after vesting period over
    let now = contract.cliff + contract.duration + 1;

    let amount_vested = contract.calculate_amount_vested(now);
    assert_eq!(amount_vested, TOTAL_AMOUNT);

    let releasable_amount = contract.releasable_amount(now).unwrap();
    assert_eq!(
        releasable_amount,
        TOTAL_AMOUNT - amount_per_month * (1 + elapsed_month)
    );

    contract.claim_vested(&accounts(3), now).unwrap();
    assert_eq!(contract.amount_claimed, TOTAL_AMOUNT);

    // after claim everything
    let releasable_amount = contract.releasable_amount(now).unwrap();
    assert_eq!(releasable_amount, 0);
}

#[test]
fn test_revoke() {
    let mut contract = setup_contract();
    let now = contract.cliff + ONE_MONTH;

    let amount_per_month: u128 = TOTAL_AMOUNT / ((contract.duration / ONE_MONTH) as u128);
    let elapsed_month: u128 = ((contract.cliff + ONE_MONTH - contract.start) / ONE_MONTH) as u128;
    let releasable_amount = contract.releasable_amount(now).unwrap();
    assert_eq!(releasable_amount, amount_per_month * elapsed_month);

    // claim
    contract.claim_vested(&accounts(3), now).unwrap();
    assert_eq!(contract.amount_claimed, amount_per_month * elapsed_month);

    let current_amount_claimed = contract.amount_claimed();
    let releasable_amount = contract.releasable_amount(now).unwrap();
    // revoke
    let outcome = contract.revoke(&accounts(1), 1, now).unwrap();
    assert_eq!(
        outcome.refund.amount,
        TOTAL_AMOUNT - current_amount_claimed - releasable_amount
    );

    assert_eq!(contract.is_active, false);
    assert_eq!(contract.amount, 0);
    assert_eq!(contract.start, 0);
    assert_eq!(contract.duration, 0);
    assert_eq!(contract.cliff, 0);
}

// NEGATIVE
#[test]
fn test_invalid_claim_vested() {
    let mut contract = setup_contract();
    let r = contract.claim_vested(&accounts(3), contract.cliff - 1);
    assert_eq!(r.unwrap_err(), VestingError::NothingToClaim);
}

#[test]
fn test_invalid_claim_vested_caller_not_recipient() {
    let mut contract = setup_contract();
    let r = contract.claim_vested(&accounts(4), contract.cliff + contract.duration);
    assert_eq!(r.unwrap_err(), VestingError::Unauthorized);
}
