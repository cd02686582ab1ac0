//! Fund custody: one ledger account per owner, which records what the owner
//! has deposited and holds that value until it is withdrawn.

use vstd::prelude::*;
use crate::account::{Account, Signer};
use crate::address::Address;
use crate::error::ErrorCode;

verus! {

/// The ledger record of one owner.
#[derive(Clone, Copy, Debug, PartialEq, Eq)]
pub struct UserFunds {
    /// Owner of the funds.
    pub owner: Address,
    /// Current balance of the owner's funds, in lamports.
    pub balance: u64,
}

/// Accounts of `initialize_user_funds`. `user_funds` is the place of the
/// signer's ledger record, empty until it is initialized.
#[derive(Clone, Debug, PartialEq, Eq)]
pub struct InitializeUserFunds {
    pub user_funds: Option<UserFunds>,
    pub user: Signer,
}

/// Accounts of `deposit_funds`.
#[derive(Clone, Debug, PartialEq, Eq)]
pub struct DepositFunds {
    pub user: Signer,
    pub user_funds: Account<UserFunds>,
}

/// Accounts of `withdraw_funds`.
#[derive(Clone, Debug, PartialEq, Eq)]
pub struct WithdrawFunds {
    pub user: Signer,
    pub user_funds: Account<UserFunds>,
}

/// A ledger account is backed when it holds at least the balance that its
/// record shows.
pub open spec fn backed(funds: Account<UserFunds>) -> bool {
    funds.data.balance <= funds.lamports
}

impl InitializeUserFunds {
    /// The outcome of initializing: the accounts afterwards, or the reason
    /// for which nothing happens.
    pub open spec fn initialize(self) -> Result<InitializeUserFunds, ErrorCode> {
        if self.user_funds is Some {
            Err(ErrorCode::AlreadyInitialized)
        } else {
            Ok(
                InitializeUserFunds {
                    user_funds: Some(UserFunds { owner: self.user.key, balance: 0 }),
                    user: self.user,
                },
            )
        }
    }
}

impl DepositFunds {
    /// The outcome of depositing `amount`: the accounts afterwards, or the
    /// reason for which nothing happens.
    pub open spec fn deposit(self, amount: u64) -> Result<DepositFunds, ErrorCode> {
        if self.user.key != self.user_funds.data.owner {
            Err(ErrorCode::NotAuthorized)
        } else if self.user.lamports < amount {
            Err(ErrorCode::InsufficientFunds)
        } else if self.user_funds.lamports + amount > u64::MAX || self.user_funds.data.balance
            + amount > u64::MAX {
            Err(ErrorCode::Overflow)
        } else {
            Ok(
                DepositFunds {
                    user: Signer {
                        lamports: (self.user.lamports - amount) as u64,
                        ..self.user
                    },
                    user_funds: Account {
                        lamports: (self.user_funds.lamports + amount) as u64,
                        data: UserFunds {
                            balance: (self.user_funds.data.balance + amount) as u64,
                            ..self.user_funds.data
                        },
                        ..self.user_funds
                    },
                },
            )
        }
    }
}

impl WithdrawFunds {
    /// The outcome of withdrawing `amount`: the accounts afterwards, or the
    /// reason for which nothing happens.
    pub open spec fn withdraw(self, amount: u64) -> Result<WithdrawFunds, ErrorCode> {
        if self.user.key != self.user_funds.data.owner {
            Err(ErrorCode::NotAuthorized)
        } else if self.user_funds.data.balance < amount {
            Err(ErrorCode::InsufficientFunds)
        } else if self.user_funds.lamports < amount {
            Err(ErrorCode::Underflow)
        } else if self.user.lamports + amount > u64::MAX {
            Err(ErrorCode::Overflow)
        } else {
            Ok(
                WithdrawFunds {
                    user: Signer {
                        lamports: (self.user.lamports + amount) as u64,
                        ..self.user
                    },
                    user_funds: Account {
                        lamports: (self.user_funds.lamports - amount) as u64,
                        data: UserFunds {
                            balance: (self.user_funds.data.balance - amount) as u64,
                            ..self.user_funds.data
                        },
                        ..self.user_funds
                    },
                },
            )
        }
    }
}

/// Creates the signer's ledger record, with a balance of zero. Fails with
/// `AlreadyInitialized` where the record exists.
pub fn initialize_user_funds(ctx: &mut InitializeUserFunds) -> (r: Result<(), ErrorCode>)
    ensures
        (match old(ctx).initialize() {
            Ok(next) => r is Ok && *final(ctx) == next,
            Err(e) => r == Err::<(), ErrorCode>(e) && *final(ctx) == *old(ctx),
        }),
{
    if ctx.user_funds.is_some() {
        return Err(ErrorCode::AlreadyInitialized);
    }
    ctx.user_funds = Some(UserFunds { owner: ctx.user.key, balance: 0 });
    Ok(())
}

/// Deposits `amount` lamports from the signer into their ledger account.
///
/// Only the owner may deposit, and only what the owner can spend. The value
/// moves from the signer to the account and the recorded balance grows by
/// it; where either sum would exceed `u64::MAX` the deposit fails with
/// `Overflow`. A failed deposit changes nothing.
pub fn deposit_funds(ctx: &mut DepositFunds, amount: u64) -> (r: Result<(), ErrorCode>)
    ensures
        (match old(ctx).deposit(amount) {
            Ok(next) => r is Ok && *final(ctx) == next,
            Err(e) => r == Err::<(), ErrorCode>(e) && *final(ctx) == *old(ctx),
        }),
        old(ctx).user.key != old(ctx).user_funds.data.owner
            ==> r == Err::<(), ErrorCode>(ErrorCode::NotAuthorized) && *final(ctx) == *old(ctx),
        final(ctx).user.lamports + final(ctx).user_funds.lamports
            == old(ctx).user.lamports + old(ctx).user_funds.lamports,
        backed(old(ctx).user_funds) ==> backed(final(ctx).user_funds),
{
    if ctx.user.key != ctx.user_funds.data.owner {
        return Err(ErrorCode::NotAuthorized);
    }
    if ctx.user.lamports < amount {
        return Err(ErrorCode::InsufficientFunds);
    }
    let held: u64 = match ctx.user_funds.lamports.checked_add(amount) {
        Some(sum) => sum,
        None => {
            return Err(ErrorCode::Overflow);
        },
    };
    let balance: u64 = match ctx.user_funds.data.balance.checked_add(amount) {
        Some(sum) => sum,
        None => {
            return Err(ErrorCode::Overflow);
        },
    };
    ctx.user.lamports = ctx.user.lamports - amount;
    ctx.user_funds.lamports = held;
    ctx.user_funds.data.balance = balance;
    Ok(())
}

/// Withdraws `amount` lamports from the ledger account back to the signer.
///
/// Only the owner may withdraw, and no more than the recorded balance. The
/// recorded balance shrinks by `amount` and the value moves from the account
/// to the signer. An account that holds less than `amount` fails with
/// `Underflow`, which cannot happen to a backed account; a signer whose
/// balance would exceed `u64::MAX` fails with `Overflow`. A failed
/// withdrawal changes nothing.
pub fn withdraw_funds(ctx: &mut WithdrawFunds, amount: u64) -> (r: Result<(), ErrorCode>)
    ensures
        (match old(ctx).withdraw(amount) {
            Ok(next) => r is Ok && *final(ctx) == next,
            Err(e) => r == Err::<(), ErrorCode>(e) && *final(ctx) == *old(ctx),
        }),
        old(ctx).user.key != old(ctx).user_funds.data.owner
            ==> r == Err::<(), ErrorCode>(ErrorCode::NotAuthorized) && *final(ctx) == *old(ctx),
        final(ctx).user.lamports + final(ctx).user_funds.lamports
            == old(ctx).user.lamports + old(ctx).user_funds.lamports,
        backed(old(ctx).user_funds)
            ==> backed(final(ctx).user_funds) && r != Err::<(), ErrorCode>(ErrorCode::Underflow),
{
    if ctx.user.key != ctx.user_funds.data.owner {
        return Err(ErrorCode::NotAuthorized);
    }
    if ctx.user_funds.data.balance < amount {
        return Err(ErrorCode::InsufficientFunds);
    }
    let balance: u64 = match ctx.user_funds.data.balance.checked_sub(amount) {
        Some(rest) => rest,
        None => {
            return Err(ErrorCode::Underflow);
        },
    };
    let held: u64 = match ctx.user_funds.lamports.checked_sub(amount) {
        Some(rest) => rest,
        None => {
            return Err(ErrorCode::Underflow);
        },
    };
    let spendable: u64 = match ctx.user.lamports.checked_add(amount) {
        Some(sum) => sum,
        None => {
            return Err(ErrorCode::Overflow);
        },
    };
    ctx.user_funds.data.balance = balance;
    ctx.user_funds.lamports = held;
    ctx.user.lamports = spendable;
    Ok(())
}

/// One call made on a ledger account: the instruction, the signer as the
/// call finds it, and the amount.
#[derive(Clone, Copy, Debug, PartialEq, Eq)]
pub enum FundsCall {
    Deposit { user: Signer, amount: u64 },
    Withdraw { user: Signer, amount: u64 },
}

impl FundsCall {
    /// The ledger account after this call: as `deposit_funds` or
    /// `withdraw_funds` leaves it.
    pub open spec fn apply(self, funds: Account<UserFunds>) -> Account<UserFunds> {
        match self {
            FundsCall::Deposit { user, amount } => match (DepositFunds {
                user,
                user_funds: funds,
            }).deposit(amount) {
                Ok(next) => next.user_funds,
                Err(_) => funds,
            },
            FundsCall::Withdraw { user, amount } => match (WithdrawFunds {
                user,
                user_funds: funds,
            }).withdraw(amount) {
                Ok(next) => next.user_funds,
                Err(_) => funds,
            },
        }
    }

    /// What this call deposits: its amount where it is a deposit that
    /// succeeds, else nothing.
    pub open spec fn deposited(self, funds: Account<UserFunds>) -> nat {
        match self {
            FundsCall::Deposit { user, amount } => if (DepositFunds {
                user,
                user_funds: funds,
            }).deposit(amount) is Ok {
                amount as nat
            } else {
                0
            },
            FundsCall::Withdraw { .. } => 0,
        }
    }

    /// What this call withdraws: its amount where it is a withdrawal that
    /// succeeds, else nothing.
    pub open spec fn withdrawn(self, funds: Account<UserFunds>) -> nat {
        match self {
            FundsCall::Deposit { .. } => 0,
            FundsCall::Withdraw { user, amount } => if (WithdrawFunds {
                user,
                user_funds: funds,
            }).withdraw(amount) is Ok {
                amount as nat
            } else {
                0
            },
        }
    }
}

/// The ledger account after `calls` were made on it, first to last.
pub open spec fn replay(funds: Account<UserFunds>, calls: Seq<FundsCall>) -> Account<UserFunds>
    decreases calls.len(),
{
    if calls.len() == 0 {
        funds
    } else {
        calls.last().apply(replay(funds, calls.drop_last()))
    }
}

/// The sum of the deposits among `calls` that succeed.
pub open spec fn total_deposited(funds: Account<UserFunds>, calls: Seq<FundsCall>) -> nat
    decreases calls.len(),
{
    if calls.len() == 0 {
        0
    } else {
        total_deposited(funds, calls.drop_last()) + calls.last().deposited(
            replay(funds, calls.drop_last()),
        )
    }
}

/// The sum of the withdrawals among `calls` that succeed.
pub open spec fn total_withdrawn(funds: Account<UserFunds>, calls: Seq<FundsCall>) -> nat
    decreases calls.len(),
{
    if calls.len() == 0 {
        0
    } else {
        total_withdrawn(funds, calls.drop_last()) + calls.last().withdrawn(
            replay(funds, calls.drop_last()),
        )
    }
}

/// Balance conservation. After any sequence of deposits and withdrawals on
/// one ledger account, by any signers, the recorded balance is the balance
/// at the start plus the deposits that succeeded minus the withdrawals that
/// succeeded, as whole numbers: it never wraps and never goes below zero.
/// On a ledger fresh from `initialize_user_funds`, whose balance is zero,
/// that is the deposits minus the withdrawals. The owner stays, and a
/// backed account stays backed.
pub proof fn lemma_balance_conservation(funds: Account<UserFunds>, calls: Seq<FundsCall>)
    ensures
        replay(funds, calls).data.balance == funds.data.balance + total_deposited(funds, calls)
            - total_withdrawn(funds, calls),
        0 <= funds.data.balance + total_deposited(funds, calls) - total_withdrawn(funds, calls)
            <= u64::MAX,
        replay(funds, calls).data.owner == funds.data.owner,
        replay(funds, calls).key == funds.key,
        backed(funds) ==> backed(replay(funds, calls)),
    decreases calls.len(),
{
    if calls.len() > 0 {
        lemma_balance_conservation(funds, calls.drop_last());
    }
}

/// A ledger record is created once: on what a successful
/// `initialize_user_funds` leaves, it fails with `AlreadyInitialized`.
pub proof fn lemma_initialize_user_funds_once(ctx: InitializeUserFunds)
    ensures
        ctx.initialize() matches Ok(next)
            ==> next.initialize()
                == Err::<InitializeUserFunds, ErrorCode>(ErrorCode::AlreadyInitialized),
{
}

} // verus!
