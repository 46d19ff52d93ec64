use vulnera::arith::{
    checked_add, checked_div, checked_mul, checked_sub, split_fee, FeeSplit, BASIS_POINTS,
    DEFAULT_PLATFORM_FEE,
};
use vulnera::errors::VaultError;
use vulnera::identity::{authorize, Identity};

#[test]
fn fee_rate_is_two_percent() {
    assert_eq!(DEFAULT_PLATFORM_FEE, 200);
    assert_eq!(BASIS_POINTS, 10_000);
}

#[test]
fn checked_add_sums_or_overflows() {
    assert_eq!(checked_add(2, 3), Ok(5));
    assert_eq!(checked_add(0, 0), Ok(0));
    assert_eq!(checked_add(u64::MAX - 1, 1), Ok(u64::MAX));
    assert_eq!(checked_add(u64::MAX, 1), Err(VaultError::Overflow));
    assert_eq!(checked_add(u64::MAX, u64::MAX), Err(VaultError::Overflow));
}

#[test]
fn checked_sub_subtracts_or_underflows() {
    assert_eq!(checked_sub(5, 3), Ok(2));
    assert_eq!(checked_sub(3, 3), Ok(0));
    assert_eq!(checked_sub(3, 5), Err(VaultError::Underflow));
    assert_eq!(checked_sub(0, 1), Err(VaultError::Underflow));
}

#[test]
fn checked_mul_multiplies_or_overflows() {
    assert_eq!(checked_mul(6, 7), Ok(42));
    assert_eq!(checked_mul(u64::MAX, 0), Ok(0));
    assert_eq!(checked_mul(u64::MAX, 1), Ok(u64::MAX));
    assert_eq!(checked_mul(u64::MAX, 2), Err(VaultError::Overflow));
    assert_eq!(checked_mul(1 << 32, 1 << 32), Err(VaultError::Overflow));
}

#[test]
fn checked_div_rounds_down() {
    assert_eq!(checked_div(7, 2), Ok(3));
    assert_eq!(checked_div(9_999, 10_000), Ok(0));
    assert_eq!(checked_div(0, 5), Ok(0));
    assert_eq!(checked_div(5, 0), Err(VaultError::Overflow));
}

#[test]
fn fee_on_one_million() {
    let split = split_fee(1_000_000).unwrap();
    assert_eq!(split, FeeSplit { platform_fee: 20_000, hunter_amount: 980_000 });
    assert_eq!(split.platform_fee + split.hunter_amount, 1_000_000);
}

#[test]
fn fee_rounds_down() {
    assert_eq!(split_fee(0), Ok(FeeSplit { platform_fee: 0, hunter_amount: 0 }));
    assert_eq!(split_fee(1), Ok(FeeSplit { platform_fee: 0, hunter_amount: 1 }));
    assert_eq!(split_fee(49), Ok(FeeSplit { platform_fee: 0, hunter_amount: 49 }));
    assert_eq!(split_fee(50), Ok(FeeSplit { platform_fee: 1, hunter_amount: 49 }));
    assert_eq!(split_fee(99), Ok(FeeSplit { platform_fee: 1, hunter_amount: 98 }));
    assert_eq!(split_fee(100), Ok(FeeSplit { platform_fee: 2, hunter_amount: 98 }));
    assert_eq!(split_fee(12_345), Ok(FeeSplit { platform_fee: 246, hunter_amount: 12_099 }));
}

#[test]
fn fee_split_adds_up() {
    let amounts: [u64; 8] =
        [0, 1, 49, 50, 9_999, 1_000_000, 50_000_000, 92_233_720_368_547_758];
    for amount in amounts {
        let split = split_fee(amount).unwrap();
        assert_eq!(split.platform_fee + split.hunter_amount, amount);
        assert_eq!(split.platform_fee as u128, amount as u128 * 200 / 10_000);
        assert!(split.platform_fee <= amount);
    }
}

#[test]
fn fee_split_overflows_past_the_largest_scalable_amount() {
    let largest = u64::MAX / 200;
    assert_eq!(largest, 92_233_720_368_547_758);
    assert_eq!(
        split_fee(largest),
        Ok(FeeSplit {
            platform_fee: 1_844_674_407_370_955,
            hunter_amount: 90_389_045_961_176_803,
        })
    );
    assert_eq!(split_fee(largest + 1), Err(VaultError::Overflow));
    assert_eq!(split_fee(u64::MAX), Err(VaultError::Overflow));
}

#[test]
fn identities_compare_by_key() {
    let a = Identity { key: [7; 32] };
    let b = Identity { key: [7; 32] };
    let mut last_differs = [7u8; 32];
    last_differs[31] = 8;
    let mut first_differs = [7u8; 32];
    first_differs[0] = 6;
    assert!(a == b);
    assert!(a != Identity { key: last_differs });
    assert!(a != Identity { key: first_differs });
    assert!(Identity { key: [0; 32] } == Identity { key: [0; 32] });
}

#[test]
fn authorize_lets_only_the_owner_through() {
    let owner = Identity { key: [1; 32] };
    let stranger = Identity { key: [2; 32] };
    assert_eq!(authorize(&owner, &owner), Ok(()));
    assert_eq!(authorize(&owner, &Identity { key: [1; 32] }), Ok(()));
    assert_eq!(authorize(&owner, &stranger), Err(VaultError::Unauthorized));
    assert_eq!(authorize(&stranger, &owner), Err(VaultError::Unauthorized));
}

#[test]
fn every_error_has_its_message() {
    assert_eq!(VaultError::ZeroDeposit.message(), "Cannot deposit zero amount.");
    assert_eq!(
        VaultError::LockupPeriodNotExpired.message(),
        "Lock-up period of 15 days has not expired yet."
    );
    assert_eq!(
        VaultError::ZeroWithdrawal.message(),
        "Withdrawal amount must be greater than zero."
    );
    assert_eq!(VaultError::InsufficientFunds.message(), "Insufficient funds in the vault.");
    assert_eq!(VaultError::Overflow.message(), "Arithmetic overflow occurred.");
    assert_eq!(VaultError::Underflow.message(), "Arithmetic underflow occurred.");
    assert_eq!(VaultError::InvalidEscrowAmount.message(), "Invalid escrow amount");
    assert_eq!(VaultError::MaxSubmissionsReached.message(), "Maximum submissions reached");
    assert_eq!(VaultError::Unauthorized.message(), "Signer is not the owner of the account.");
    assert_eq!(
        VaultError::AccountAlreadyInitialized.message(),
        "Account is already initialized."
    );
    assert_eq!(VaultError::AccountNotInitialized.message(), "Account is not initialized.");
    assert_eq!(VaultError::AccountClosed.message(), "Account is closed.");
}
