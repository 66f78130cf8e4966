//! Types shared across the protocol contracts: treasury, fee and
//! orchestration errors and records, and the fee schedule.

use vstd::prelude::*;

verus! {

/// Basis point denominator used by treasury and fee calculations.
pub const TREASURY_BPS_DENOMINATOR: u32 = 10_000;

/// Errors reported by treasury allocators.
#[derive(Clone, Copy, Debug, PartialEq, Eq, Structural)]
pub enum TreasuryError {
    AlreadyInitialized,
    NotInitialized,
    Unauthorized,
    InvalidAmount,
    InvalidShare,
    InvalidShareTotal,
    EmptyStrategy,
    TooManyRules,
    DuplicateRecipient,
    StrategyNotFound,
    DuplicateDistribution,
    InsufficientBalance,
}

/// The contract error code of each treasury error, 1 to 12 in the order
/// of declaration.
pub open spec fn treasury_error_code(e: TreasuryError) -> u32 {
    match e {
        TreasuryError::AlreadyInitialized => 1,
        TreasuryError::NotInitialized => 2,
        TreasuryError::Unauthorized => 3,
        TreasuryError::InvalidAmount => 4,
        TreasuryError::InvalidShare => 5,
        TreasuryError::InvalidShareTotal => 6,
        TreasuryError::EmptyStrategy => 7,
        TreasuryError::TooManyRules => 8,
        TreasuryError::DuplicateRecipient => 9,
        TreasuryError::StrategyNotFound => 10,
        TreasuryError::DuplicateDistribution => 11,
        TreasuryError::InsufficientBalance => 12,
    }
}

impl TreasuryError {
    /// The contract error code under which this error is reported.
    pub fn code(&self) -> (code: u32)
        ensures
            code == treasury_error_code(*self),
            *self == TreasuryError::AlreadyInitialized ==> code == 1,
            *self == TreasuryError::NotInitialized ==> code == 2,
            *self == TreasuryError::Unauthorized ==> code == 3,
            *self == TreasuryError::InvalidAmount ==> code == 4,
            *self == TreasuryError::InvalidShare ==> code == 5,
            *self == TreasuryError::InvalidShareTotal ==> code == 6,
            *self == TreasuryError::EmptyStrategy ==> code == 7,
            *self == TreasuryError::TooManyRules ==> code == 8,
            *self == TreasuryError::DuplicateRecipient ==> code == 9,
            *self == TreasuryError::StrategyNotFound ==> code == 10,
            *self == TreasuryError::DuplicateDistribution ==> code == 11,
            *self == TreasuryError::InsufficientBalance ==> code == 12,
    {
        match self {
            TreasuryError::AlreadyInitialized => 1,
            TreasuryError::NotInitialized => 2,
            TreasuryError::Unauthorized => 3,
            TreasuryError::InvalidAmount => 4,
            TreasuryError::InvalidShare => 5,
            TreasuryError::InvalidShareTotal => 6,
            TreasuryError::EmptyStrategy => 7,
            TreasuryError::TooManyRules => 8,
            TreasuryError::DuplicateRecipient => 9,
            TreasuryError::StrategyNotFound => 10,
            TreasuryError::DuplicateDistribution => 11,
            TreasuryError::InsufficientBalance => 12,
        }
    }

    /// The treasury error reported under `code`, if any.
    pub fn from_code(code: u32) -> (e: Option<TreasuryError>)
        ensures
            match e {
                Some(e) => treasury_error_code(e) == code,
                None => !(1 <= code <= 12),
            },
            code == 1 ==> e == Some(TreasuryError::AlreadyInitialized),
            code == 2 ==> e == Some(TreasuryError::NotInitialized),
            code == 3 ==> e == Some(TreasuryError::Unauthorized),
            code == 4 ==> e == Some(TreasuryError::InvalidAmount),
            code == 5 ==> e == Some(TreasuryError::InvalidShare),
            code == 6 ==> e == Some(TreasuryError::InvalidShareTotal),
            code == 7 ==> e == Some(TreasuryError::EmptyStrategy),
            code == 8 ==> e == Some(TreasuryError::TooManyRules),
            code == 9 ==> e == Some(TreasuryError::DuplicateRecipient),
            code == 10 ==> e == Some(TreasuryError::StrategyNotFound),
            code == 11 ==> e == Some(TreasuryError::DuplicateDistribution),
            code == 12 ==> e == Some(TreasuryError::InsufficientBalance),
    {
        match code {
            1 => Some(TreasuryError::AlreadyInitialized),
            2 => Some(TreasuryError::NotInitialized),
            3 => Some(TreasuryError::Unauthorized),
            4 => Some(TreasuryError::InvalidAmount),
            5 => Some(TreasuryError::InvalidShare),
            6 => Some(TreasuryError::InvalidShareTotal),
            7 => Some(TreasuryError::EmptyStrategy),
            8 => Some(TreasuryError::TooManyRules),
            9 => Some(TreasuryError::DuplicateRecipient),
            10 => Some(TreasuryError::StrategyNotFound),
            11 => Some(TreasuryError::DuplicateDistribution),
            12 => Some(TreasuryError::InsufficientBalance),
            _ => None,
        }
    }
}

/// The kinds of operation on which a protocol fee is charged.
#[derive(Clone, Copy, Debug, PartialEq, Eq, Structural)]
pub enum FeeType {
    Deposit,
    Withdrawal,
    Reward,
}

/// The fee schedule: where fees go and the rate, in basis points, of
/// each kind of operation. `A` is the treasury's address type.
#[derive(Clone, Debug, PartialEq, Eq)]
pub struct FeeConfig<A> {
    pub treasury: A,
    pub deposit_fee_bps: u32,
    pub withdrawal_fee_bps: u32,
    pub reward_fee_bps: u32,
}

impl<A> FeeConfig<A> {
    /// The rate, in basis points, charged on operations of `fee_type`.
    pub open spec fn spec_rate_for(&self, fee_type: FeeType) -> u32 {
        match fee_type {
            FeeType::Deposit => self.deposit_fee_bps,
            FeeType::Withdrawal => self.withdrawal_fee_bps,
            FeeType::Reward => self.reward_fee_bps,
        }
    }

    /// The rate, in basis points, charged on operations of `fee_type`.
    pub fn rate_for(&self, fee_type: FeeType) -> (bps: u32)
        ensures
            bps == self.spec_rate_for(fee_type),
            fee_type == FeeType::Deposit ==> bps == self.deposit_fee_bps,
            fee_type == FeeType::Withdrawal ==> bps == self.withdrawal_fee_bps,
            fee_type == FeeType::Reward ==> bps == self.reward_fee_bps,
    {
        match fee_type {
            FeeType::Deposit => self.deposit_fee_bps,
            FeeType::Withdrawal => self.withdrawal_fee_bps,
            FeeType::Reward => self.reward_fee_bps,
        }
    }
}

/// A record of one charged fee. `A` is the address type.
#[derive(Clone, Debug, PartialEq, Eq)]
pub struct FeeReceipt<A> {
    pub fee_type: FeeType,
    pub actor: A,
    pub treasury: A,
    pub asset: Option<A>,
    pub gross_amount: i128,
    pub fee_bps: u32,
    pub fee_amount: i128,
    pub net_amount: i128,
    pub treasury_amount: i128,
    pub timestamp: u64,
}

/// Running totals of the fees charged on one kind of operation.
#[derive(Clone, Copy, Debug, PartialEq, Eq, Structural)]
pub struct FeeTotals {
    pub operation_count: u64,
    pub collected_amount: i128,
    pub treasury_amount: i128,
}

/// Errors reported by fee calculations.
#[derive(Clone, Copy, Debug, PartialEq, Eq, Structural)]
pub enum FeeError {
    InvalidAmount,
    InvalidFeeRate,
    MathOverflow,
}

/// The contract error code of each fee error.
pub open spec fn fee_error_code(e: FeeError) -> u32 {
    match e {
        FeeError::InvalidAmount => 1,
        FeeError::InvalidFeeRate => 2,
        FeeError::MathOverflow => 3,
    }
}

impl FeeError {
    /// The contract error code under which this error is reported.
    pub fn code(&self) -> (code: u32)
        ensures
            code == fee_error_code(*self),
            *self == FeeError::InvalidAmount ==> code == 1,
            *self == FeeError::InvalidFeeRate ==> code == 2,
            *self == FeeError::MathOverflow ==> code == 3,
    {
        match self {
            FeeError::InvalidAmount => 1,
            FeeError::InvalidFeeRate => 2,
            FeeError::MathOverflow => 3,
        }
    }

    /// The fee error reported under `code`, if any.
    pub fn from_code(code: u32) -> (e: Option<FeeError>)
        ensures
            match e {
                Some(e) => fee_error_code(e) == code,
                None => !(1 <= code <= 3),
            },
            code == 1 ==> e == Some(FeeError::InvalidAmount),
            code == 2 ==> e == Some(FeeError::InvalidFeeRate),
            code == 3 ==> e == Some(FeeError::MathOverflow),
    {
        match code {
            1 => Some(FeeError::InvalidAmount),
            2 => Some(FeeError::InvalidFeeRate),
            3 => Some(FeeError::MathOverflow),
            _ => None,
        }
    }
}

/// State recorded for a single operation in an execution receipt.
#[derive(Clone, Copy, Debug, PartialEq, Eq, Structural)]
pub enum OperationStatus {
    Pending,
    Executed,
    RolledBack,
}

/// Final state of an execution plan.
#[derive(Clone, Copy, Debug, PartialEq, Eq, Structural)]
pub enum ExecutionStatus {
    Succeeded,
    Failed,
    RolledBack,
}

/// Per-operation receipt data persisted by the orchestrator.
#[derive(Clone, Copy, Debug, PartialEq, Eq, Structural)]
pub struct OperationReceipt {
    pub operation_id: u32,
    pub status: OperationStatus,
}

/// Errors returned by orchestration validation and execution.
#[derive(Clone, Copy, Debug, PartialEq, Eq, Structural)]
pub enum OrchestrationError {
    EmptyPlan,
    TooManyOperations,
    DuplicateOperationId,
    InvalidTarget,
    InvalidDependency,
    DependencyNotOrdered,
    OperationFailed,
    RollbackFailed,
}

/// The contract error code of each orchestration error, 1 to 8 in the
/// order of declaration.
pub open spec fn orchestration_error_code(e: OrchestrationError) -> u32 {
    match e {
        OrchestrationError::EmptyPlan => 1,
        OrchestrationError::TooManyOperations => 2,
        OrchestrationError::DuplicateOperationId => 3,
        OrchestrationError::InvalidTarget => 4,
        OrchestrationError::InvalidDependency => 5,
        OrchestrationError::DependencyNotOrdered => 6,
        OrchestrationError::OperationFailed => 7,
        OrchestrationError::RollbackFailed => 8,
    }
}

impl OrchestrationError {
    /// The contract error code under which this error is reported.
    pub fn code(&self) -> (code: u32)
        ensures
            code == orchestration_error_code(*self),
            *self == OrchestrationError::EmptyPlan ==> code == 1,
            *self == OrchestrationError::TooManyOperations ==> code == 2,
            *self == OrchestrationError::DuplicateOperationId ==> code == 3,
            *self == OrchestrationError::InvalidTarget ==> code == 4,
            *self == OrchestrationError::InvalidDependency ==> code == 5,
            *self == OrchestrationError::DependencyNotOrdered ==> code == 6,
            *self == OrchestrationError::OperationFailed ==> code == 7,
            *self == OrchestrationError::RollbackFailed ==> code == 8,
    {
        match self {
            OrchestrationError::EmptyPlan => 1,
            OrchestrationError::TooManyOperations => 2,
            OrchestrationError::DuplicateOperationId => 3,
            OrchestrationError::InvalidTarget => 4,
            OrchestrationError::InvalidDependency => 5,
            OrchestrationError::DependencyNotOrdered => 6,
            OrchestrationError::OperationFailed => 7,
            OrchestrationError::RollbackFailed => 8,
        }
    }

    /// The orchestration error reported under `code`, if any.
    pub fn from_code(code: u32) -> (e: Option<OrchestrationError>)
        ensures
            match e {
                Some(e) => orchestration_error_code(e) == code,
                None => !(1 <= code <= 8),
            },
            code == 1 ==> e == Some(OrchestrationError::EmptyPlan),
            code == 2 ==> e == Some(OrchestrationError::TooManyOperations),
            code == 3 ==> e == Some(OrchestrationError::DuplicateOperationId),
            code == 4 ==> e == Some(OrchestrationError::InvalidTarget),
            code == 5 ==> e == Some(OrchestrationError::InvalidDependency),
            code == 6 ==> e == Some(OrchestrationError::DependencyNotOrdered),
            code == 7 ==> e == Some(OrchestrationError::OperationFailed),
            code == 8 ==> e == Some(OrchestrationError::RollbackFailed),
    {
        match code {
            1 => Some(OrchestrationError::EmptyPlan),
            2 => Some(OrchestrationError::TooManyOperations),
            3 => Some(OrchestrationError::DuplicateOperationId),
            4 => Some(OrchestrationError::InvalidTarget),
            5 => Some(OrchestrationError::InvalidDependency),
            6 => Some(OrchestrationError::DependencyNotOrdered),
            7 => Some(OrchestrationError::OperationFailed),
            8 => Some(OrchestrationError::RollbackFailed),
            _ => None,
        }
    }
}

/// Error codes tell the errors of each kind apart.
pub proof fn lemma_error_codes_distinct(
    t1: TreasuryError,
    t2: TreasuryError,
    f1: FeeError,
    f2: FeeError,
    o1: OrchestrationError,
    o2: OrchestrationError,
)
    ensures
        treasury_error_code(t1) == treasury_error_code(t2) ==> t1 == t2,
        fee_error_code(f1) == fee_error_code(f2) ==> f1 == f2,
        orchestration_error_code(o1) == orchestration_error_code(o2) ==> o1 == o2,
{
}

/// The contract code of each treasury error is its position in the
/// declaration, 1 to 12: AlreadyInitialized 1, NotInitialized 2,
/// Unauthorized 3, InvalidAmount 4, InvalidShare 5, InvalidShareTotal 6,
/// EmptyStrategy 7, TooManyRules 8, DuplicateRecipient 9,
/// StrategyNotFound 10, DuplicateDistribution 11, InsufficientBalance 12.
pub proof fn lemma_treasury_error_code_values()
    ensures
        treasury_error_code(TreasuryError::AlreadyInitialized) == 1,
        treasury_error_code(TreasuryError::NotInitialized) == 2,
        treasury_error_code(TreasuryError::Unauthorized) == 3,
        treasury_error_code(TreasuryError::InvalidAmount) == 4,
        treasury_error_code(TreasuryError::InvalidShare) == 5,
        treasury_error_code(TreasuryError::InvalidShareTotal) == 6,
        treasury_error_code(TreasuryError::EmptyStrategy) == 7,
        treasury_error_code(TreasuryError::TooManyRules) == 8,
        treasury_error_code(TreasuryError::DuplicateRecipient) == 9,
        treasury_error_code(TreasuryError::StrategyNotFound) == 10,
        treasury_error_code(TreasuryError::DuplicateDistribution) == 11,
        treasury_error_code(TreasuryError::InsufficientBalance) == 12,
{
}

/// The contract code of each fee error: InvalidAmount 1, InvalidFeeRate 2,
/// MathOverflow 3.
pub proof fn lemma_fee_error_code_values()
    ensures
        fee_error_code(FeeError::InvalidAmount) == 1,
        fee_error_code(FeeError::InvalidFeeRate) == 2,
        fee_error_code(FeeError::MathOverflow) == 3,
{
}

/// The contract code of each orchestration error is its position in the
/// declaration, 1 to 8: EmptyPlan 1, TooManyOperations 2,
/// DuplicateOperationId 3, InvalidTarget 4, InvalidDependency 5,
/// DependencyNotOrdered 6, OperationFailed 7, RollbackFailed 8.
pub proof fn lemma_orchestration_error_code_values()
    ensures
        orchestration_error_code(OrchestrationError::EmptyPlan) == 1,
        orchestration_error_code(OrchestrationError::TooManyOperations) == 2,
        orchestration_error_code(OrchestrationError::DuplicateOperationId) == 3,
        orchestration_error_code(OrchestrationError::InvalidTarget) == 4,
        orchestration_error_code(OrchestrationError::InvalidDependency) == 5,
        orchestration_error_code(OrchestrationError::DependencyNotOrdered) == 6,
        orchestration_error_code(OrchestrationError::OperationFailed) == 7,
        orchestration_error_code(OrchestrationError::RollbackFailed) == 8,
{
}

/// The rate looked up for each kind of operation is that kind's own
/// field of the schedule.
pub proof fn lemma_rate_for_reads_own_field<A>(config: FeeConfig<A>)
    ensures
        config.spec_rate_for(FeeType::Deposit) == config.deposit_fee_bps,
        config.spec_rate_for(FeeType::Withdrawal) == config.withdrawal_fee_bps,
        config.spec_rate_for(FeeType::Reward) == config.reward_fee_bps,
{
}

} // verus!
