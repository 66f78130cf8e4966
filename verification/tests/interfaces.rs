use axionvera::interfaces::{
    FeeConfig, FeeError, FeeType, OrchestrationError, TreasuryError, TREASURY_BPS_DENOMINATOR,
};

#[test]
fn fee_rate_follows_fee_type() {
    let config = FeeConfig {
        treasury: "treasury",
        deposit_fee_bps: 10,
        withdrawal_fee_bps: 25,
        reward_fee_bps: 500,
    };
    assert_eq!(config.rate_for(FeeType::Deposit), 10);
    assert_eq!(config.rate_for(FeeType::Withdrawal), 25);
    assert_eq!(config.rate_for(FeeType::Reward), 500);
    assert_eq!(TREASURY_BPS_DENOMINATOR, 10_000);
}

#[test]
fn interface_error_codes() {
    assert_eq!(TreasuryError::AlreadyInitialized.code(), 1);
    assert_eq!(TreasuryError::InsufficientBalance.code(), 12);
    assert_eq!(TreasuryError::from_code(9), Some(TreasuryError::DuplicateRecipient));
    assert_eq!(TreasuryError::from_code(13), None);
    assert_eq!(FeeError::MathOverflow.code(), 3);
    assert_eq!(FeeError::from_code(2), Some(FeeError::InvalidFeeRate));
    assert_eq!(FeeError::from_code(0), None);
    assert_eq!(OrchestrationError::DependencyNotOrdered.code(), 6);
    assert_eq!(OrchestrationError::from_code(8), Some(OrchestrationError::RollbackFailed));
    assert_eq!(OrchestrationError::from_code(9), None);
}
