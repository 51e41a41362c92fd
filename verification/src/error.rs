use vstd::prelude::*;

verus! {

/// The faucet's own error codes, in declaration order.
#[derive(Clone, Copy, Debug, PartialEq, Eq, Structural)]
pub enum ErrorCode {
    InsufficientBalance,
    TransferFailed,
    InvalidAuthority,
    InsufficientPoolBalance,
    InvalidTreasuryAccount,
    AirdropFailed,
    FaucetAccountNotInitialised,
    FaucetAccountAlreadyInitialised,
}

impl ErrorCode {
    /// The position of the variant in the declaration.
    pub open spec fn index(self) -> nat {
        match self {
            ErrorCode::InsufficientBalance => 0,
            ErrorCode::TransferFailed => 1,
            ErrorCode::InvalidAuthority => 2,
            ErrorCode::InsufficientPoolBalance => 3,
            ErrorCode::InvalidTreasuryAccount => 4,
            ErrorCode::AirdropFailed => 5,
            ErrorCode::FaucetAccountNotInitialised => 6,
            ErrorCode::FaucetAccountAlreadyInitialised => 7,
        }
    }

    /// The number a client sees: user error codes start at 6000 and follow the
    /// declaration order.
    pub fn code(&self) -> (c: u32)
        ensures
            c == 6000 + self.index(),
    {
        match self {
            ErrorCode::InsufficientBalance => 6000,
            ErrorCode::TransferFailed => 6001,
            ErrorCode::InvalidAuthority => 6002,
            ErrorCode::InsufficientPoolBalance => 6003,
            ErrorCode::InvalidTreasuryAccount => 6004,
            ErrorCode::AirdropFailed => 6005,
            ErrorCode::FaucetAccountNotInitialised => 6006,
            ErrorCode::FaucetAccountAlreadyInitialised => 6007,
        }
    }

    /// The text attached to each error.
    pub open spec fn spec_message(self) -> Seq<char> {
        match self {
            ErrorCode::InsufficientBalance => "Insufficient Balance in your account."@,
            ErrorCode::TransferFailed => "Transfer failed."@,
            ErrorCode::InvalidAuthority => "Not authorized to make changes. Invalid Authority."@,
            ErrorCode::InsufficientPoolBalance => "Insufficient pool balance"@,
            ErrorCode::InvalidTreasuryAccount => "Invalid Treasury account"@,
            ErrorCode::AirdropFailed => "Airdrop failed."@,
            ErrorCode::FaucetAccountNotInitialised => "Faucet Account not initialised"@,
            ErrorCode::FaucetAccountAlreadyInitialised => "Faucet Account already initialised"@,
        }
    }

    /// The text attached to the error.
    pub fn message(&self) -> (m: &'static str)
        ensures
            m@ == self.spec_message(),
    {
        match self {
            ErrorCode::InsufficientBalance => "Insufficient Balance in your account.",
            ErrorCode::TransferFailed => "Transfer failed.",
            ErrorCode::InvalidAuthority => "Not authorized to make changes. Invalid Authority.",
            ErrorCode::InsufficientPoolBalance => "Insufficient pool balance",
            ErrorCode::InvalidTreasuryAccount => "Invalid Treasury account",
            ErrorCode::AirdropFailed => "Airdrop failed.",
            ErrorCode::FaucetAccountNotInitialised => "Faucet Account not initialised",
            ErrorCode::FaucetAccountAlreadyInitialised => "Faucet Account already initialised",
        }
    }
}

/// The account constraints that the faucet's instructions declare, each by the
/// framework error that reports its violation.
#[derive(Clone, Copy, Debug, PartialEq, Eq, Structural)]
pub enum ConstraintError {
    /// A stored key differs from the account passed for it.
    HasOne,
    /// A boolean constraint without its own error is false.
    Raw,
    /// The account is not the program address derived from its seeds.
    Seeds,
    /// A token account is not the associated token account of its wallet and mint.
    Associated,
    /// The account to close is also the account that receives its lamports.
    Close,
    /// The account's key differs from the required address.
    Address,
    /// A token account holds another mint.
    TokenMint,
    /// A token account has another owner.
    TokenOwner,
    /// An account created on demand is not the associated token account.
    NotAssociatedTokenAccount,
}

impl ConstraintError {
    /// The framework's number for the violated constraint.
    pub open spec fn spec_code(self) -> u32 {
        match self {
            ConstraintError::HasOne => 2001,
            ConstraintError::Raw => 2003,
            ConstraintError::Seeds => 2006,
            ConstraintError::Associated => 2009,
            ConstraintError::Close => 2011,
            ConstraintError::Address => 2012,
            ConstraintError::TokenMint => 2014,
            ConstraintError::TokenOwner => 2015,
            ConstraintError::NotAssociatedTokenAccount => 3014,
        }
    }

    /// The framework's number for the violated constraint.
    pub fn code(&self) -> (c: u32)
        ensures
            c == self.spec_code(),
    {
        match self {
            ConstraintError::HasOne => 2001,
            ConstraintError::Raw => 2003,
            ConstraintError::Seeds => 2006,
            ConstraintError::Associated => 2009,
            ConstraintError::Close => 2011,
            ConstraintError::Address => 2012,
            ConstraintError::TokenMint => 2014,
            ConstraintError::TokenOwner => 2015,
            ConstraintError::NotAssociatedTokenAccount => 3014,
        }
    }
}

/// Why an instruction of the faucet was refused.
#[derive(Clone, Copy, Debug, PartialEq, Eq, Structural)]
pub enum FaucetError {
    /// One of the faucet's own errors.
    Faucet(ErrorCode),
    /// A declared account constraint does not hold.
    Constraint(ConstraintError),
}

impl FaucetError {
    /// The number that the refusal carries.
    pub fn code(&self) -> (c: u32)
        ensures
            c == match *self {
                FaucetError::Faucet(e) => 6000 + e.index() as int,
                FaucetError::Constraint(e) => e.spec_code() as int,
            },
    {
        match self {
            FaucetError::Faucet(e) => e.code(),
            FaucetError::Constraint(e) => e.code(),
        }
    }
}

} // verus!
