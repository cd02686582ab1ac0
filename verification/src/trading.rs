//! The registry of master traders, their public profiles, and the escrow
//! that a user funds when following one of them.

use vstd::prelude::*;
use vstd::utf8::encode_utf8;
use crate::account::{Account, Signer, TokenAccount};
use crate::address::Address;
use crate::error::ErrorCode;

verus! {

/// The global registry: who set it up and how many master traders have
/// registered.
#[derive(Clone, Copy, Debug, PartialEq, Eq)]
pub struct CopyTrading {
    pub authority: Address,
    pub master_trader_count: u64,
}

/// The public profile of a master trader, with the totals of those who
/// follow them.
#[derive(Clone, Debug, PartialEq, Eq)]
pub struct MasterTrader {
    pub authority: Address,
    pub name: String,
    pub description: String,
    pub total_followers: u64,
    /// Assets under management.
    pub total_aum: u64,
}

/// The longest name of a master trader, in bytes.
pub const MAX_NAME_LEN: usize = 100;

/// The longest description of a master trader, in bytes.
pub const MAX_DESCRIPTION_LEN: usize = 200;

/// The number of bytes that `text` takes when stored, which is the length
/// of a string that holds it.
pub open spec fn stored_len(text: Seq<char>) -> usize {
    encode_utf8(text).len() as usize
}

/// Whether a profile can hold `name` and `description`.
pub open spec fn profile_fits(name: Seq<char>, description: Seq<char>) -> bool {
    &&& stored_len(name) <= MAX_NAME_LEN
    &&& stored_len(description) <= MAX_DESCRIPTION_LEN
}

/// A profile as a mathematical value.
pub struct MasterTraderView {
    pub authority: Address,
    pub name: Seq<char>,
    pub description: Seq<char>,
    pub total_followers: u64,
    pub total_aum: u64,
}

impl View for MasterTrader {
    type V = MasterTraderView;

    open spec fn view(&self) -> MasterTraderView {
        MasterTraderView {
            authority: self.authority,
            name: self.name@,
            description: self.description@,
            total_followers: self.total_followers,
            total_aum: self.total_aum,
        }
    }
}

impl MasterTrader {
    /// A profile is well formed when its name and its description fit.
    pub open spec fn wf(self) -> bool {
        profile_fits(self.name@, self.description@)
    }

    /// Tells whether a profile can hold `name` and `description`: whether
    /// `register_master_trader` takes them.
    pub fn fits(name: &str, description: &str) -> (fits: bool)
        ensures
            fits == profile_fits(name@, description@),
    {
        name.len() <= MAX_NAME_LEN && description.len() <= MAX_DESCRIPTION_LEN
    }
}

/// The record of one user following one master trader.
#[derive(Clone, Copy, Debug, PartialEq, Eq)]
pub struct Follower {
    pub user: Address,
    pub master_trader: Address,
    pub deposited_amount: u64,
    pub active: bool,
}

/// Accounts of `initialize`. `copy_trading` is the place of the registry,
/// empty until it is initialized.
#[derive(Clone, Debug, PartialEq, Eq)]
pub struct Initialize {
    pub copy_trading: Option<CopyTrading>,
    pub authority: Signer,
}

/// Accounts of `register_master_trader`. `master_trader` is the place of the
/// new profile, empty until the trader registers.
#[derive(Clone, Debug, PartialEq, Eq)]
pub struct RegisterMasterTrader {
    pub copy_trading: CopyTrading,
    pub master_trader: Option<MasterTrader>,
    pub authority: Signer,
}

/// Accounts of `follow_trader`. `follower` is the place of the record for
/// this user and this trader, empty until the user follows;
/// `vault_token_account` is the escrow of that relationship.
#[derive(Clone, Debug, PartialEq, Eq)]
pub struct FollowTrader {
    pub master_trader: Account<MasterTrader>,
    pub follower: Option<Follower>,
    pub user_token_account: TokenAccount,
    pub vault_token_account: TokenAccount,
    pub user: Signer,
}

impl Initialize {
    /// The outcome of initializing: the accounts afterwards, or the reason
    /// for which nothing happens.
    pub open spec fn initialize(self) -> Result<Initialize, ErrorCode> {
        if self.copy_trading is Some {
            Err(ErrorCode::AlreadyInitialized)
        } else {
            Ok(
                Initialize {
                    copy_trading: Some(
                        CopyTrading { authority: self.authority.key, master_trader_count: 0 },
                    ),
                    authority: self.authority,
                },
            )
        }
    }
}

impl RegisterMasterTrader {
    /// The outcome of registering under `name` and `description`: the
    /// accounts afterwards, or the reason for which nothing happens.
    pub open spec fn register(self, name: String, description: String) -> Result<
        RegisterMasterTrader,
        ErrorCode,
    > {
        if self.master_trader is Some {
            Err(ErrorCode::AlreadyInitialized)
        } else if self.copy_trading.master_trader_count + 1 > u64::MAX {
            Err(ErrorCode::Overflow)
        } else {
            Ok(
                RegisterMasterTrader {
                    copy_trading: CopyTrading {
                        master_trader_count: (self.copy_trading.master_trader_count + 1) as u64,
                        ..self.copy_trading
                    },
                    master_trader: Some(
                        MasterTrader {
                            authority: self.authority.key,
                            name,
                            description,
                            total_followers: 0,
                            total_aum: 0,
                        },
                    ),
                    authority: self.authority,
                },
            )
        }
    }
}

impl FollowTrader {
    /// The outcome of following with `amount`: the accounts afterwards, or
    /// the reason for which nothing happens.
    pub open spec fn follow(self, amount: u64) -> Result<FollowTrader, ErrorCode> {
        if self.follower is Some {
            Err(ErrorCode::AlreadyFollowing)
        } else if self.user_token_account.amount < amount {
            Err(ErrorCode::InsufficientFunds)
        } else if self.vault_token_account.amount + amount > u64::MAX
            || self.master_trader.data.total_followers + 1 > u64::MAX
            || self.master_trader.data.total_aum + amount > u64::MAX {
            Err(ErrorCode::Overflow)
        } else {
            Ok(
                FollowTrader {
                    master_trader: Account {
                        data: MasterTrader {
                            total_followers: (self.master_trader.data.total_followers + 1) as u64,
                            total_aum: (self.master_trader.data.total_aum + amount) as u64,
                            ..self.master_trader.data
                        },
                        ..self.master_trader
                    },
                    follower: Some(
                        Follower {
                            user: self.user.key,
                            master_trader: self.master_trader.key,
                            deposited_amount: amount,
                            active: true,
                        },
                    ),
                    user_token_account: TokenAccount {
                        amount: (self.user_token_account.amount - amount) as u64,
                    },
                    vault_token_account: TokenAccount {
                        amount: (self.vault_token_account.amount + amount) as u64,
                    },
                    user: self.user,
                },
            )
        }
    }
}

/// Creates the registry of master traders, bound to the signing authority
/// and counting nothing yet. Fails with `AlreadyInitialized` where the
/// registry exists.
pub fn initialize(ctx: &mut Initialize) -> (r: Result<(), ErrorCode>)
    ensures
        (match old(ctx).initialize() {
            Ok(next) => r is Ok && *final(ctx) == next,
            Err(e) => r == Err::<(), ErrorCode>(e) && *final(ctx) == *old(ctx),
        }),
{
    if ctx.copy_trading.is_some() {
        return Err(ErrorCode::AlreadyInitialized);
    }
    ctx.copy_trading = Some(
        CopyTrading { authority: ctx.authority.key, master_trader_count: 0 },
    );
    Ok(())
}

/// Registers the signing authority as a new master trader: creates the
/// profile, with no followers and nothing under management, and counts it
/// in the registry. The same authority may register more than once, each
/// time with a profile of its own.
///
/// Fails with `AlreadyInitialized` where the profile exists, and with
/// `Overflow` where the registry cannot count one more. The count never
/// goes down.
pub fn register_master_trader(
    ctx: &mut RegisterMasterTrader,
    name: String,
    description: String,
) -> (r: Result<(), ErrorCode>)
    requires
        profile_fits(name@, description@),
    ensures
        (match old(ctx).register(name, description) {
            Ok(next) => r is Ok && *final(ctx) == next,
            Err(e) => r == Err::<(), ErrorCode>(e) && *final(ctx) == *old(ctx),
        }),
        final(ctx).copy_trading.master_trader_count >= old(ctx).copy_trading.master_trader_count,
        r is Ok ==> final(ctx).master_trader is Some && final(ctx).master_trader->0.wf(),
        r is Ok ==> final(ctx).master_trader->0@ == (MasterTraderView {
            authority: old(ctx).authority.key,
            name: name@,
            description: description@,
            total_followers: 0,
            total_aum: 0,
        }),
{
    if ctx.master_trader.is_some() {
        return Err(ErrorCode::AlreadyInitialized);
    }
    let count: u64 = match ctx.copy_trading.master_trader_count.checked_add(1) {
        Some(sum) => sum,
        None => {
            return Err(ErrorCode::Overflow);
        },
    };
    ctx.master_trader = Some(
        MasterTrader {
            authority: ctx.authority.key,
            name,
            description,
            total_followers: 0,
            total_aum: 0,
        },
    );
    ctx.copy_trading.master_trader_count = count;
    Ok(())
}

/// Lets the signing user follow a master trader: moves `amount` tokens from
/// the user's holding into the escrow of the relationship, creates the
/// follower record and adds to the trader's totals. All of it happens, or
/// none of it.
pub fn follow_trader(ctx: &mut FollowTrader, amount: u64) -> (r: Result<(), ErrorCode>)
    ensures
        (match old(ctx).follow(amount) {
            Ok(next) => r is Ok && *final(ctx) == next,
            Err(e) => r == Err::<(), ErrorCode>(e) && *final(ctx) == *old(ctx),
        }),
        r is Err ==> *final(ctx) == *old(ctx),
        old(ctx).follower is None && old(ctx).user_token_account.amount < amount
            ==> r == Err::<(), ErrorCode>(ErrorCode::InsufficientFunds),
        final(ctx).user_token_account.amount + final(ctx).vault_token_account.amount
            == old(ctx).user_token_account.amount + old(ctx).vault_token_account.amount,
        old(ctx).master_trader.data.wf() ==> final(ctx).master_trader.data.wf(),
        r is Ok ==> final(ctx).master_trader.data@ == (MasterTraderView {
            total_followers: (old(ctx).master_trader.data.total_followers + 1) as u64,
            total_aum: (old(ctx).master_trader.data.total_aum + amount) as u64,
            ..old(ctx).master_trader.data@
        }),
{
    if ctx.follower.is_some() {
        return Err(ErrorCode::AlreadyFollowing);
    }
    if ctx.user_token_account.amount < amount {
        return Err(ErrorCode::InsufficientFunds);
    }
    let escrowed: u64 = match ctx.vault_token_account.amount.checked_add(amount) {
        Some(sum) => sum,
        None => {
            return Err(ErrorCode::Overflow);
        },
    };
    let total_followers: u64 = match ctx.master_trader.data.total_followers.checked_add(1) {
        Some(sum) => sum,
        None => {
            return Err(ErrorCode::Overflow);
        },
    };
    let total_aum: u64 = match ctx.master_trader.data.total_aum.checked_add(amount) {
        Some(sum) => sum,
        None => {
            return Err(ErrorCode::Overflow);
        },
    };
    ctx.user_token_account.amount = ctx.user_token_account.amount - amount;
    ctx.vault_token_account.amount = escrowed;
    ctx.follower = Some(
        Follower {
            user: ctx.user.key,
            master_trader: ctx.master_trader.key,
            deposited_amount: amount,
            active: true,
        },
    );
    ctx.master_trader.data.total_followers = total_followers;
    ctx.master_trader.data.total_aum = total_aum;
    Ok(())
}

/// The registry is created once: on what a successful `initialize` leaves,
/// `initialize` fails with `AlreadyInitialized`.
pub proof fn lemma_initialize_once(ctx: Initialize)
    ensures
        ctx.initialize() matches Ok(next)
            ==> next.initialize() == Err::<Initialize, ErrorCode>(ErrorCode::AlreadyInitialized),
{
}

/// A profile is created once: on what a successful `register_master_trader`
/// leaves, registering fails with `AlreadyInitialized`, under any name and
/// description.
pub proof fn lemma_register_once(
    ctx: RegisterMasterTrader,
    name: String,
    description: String,
    other_name: String,
    other_description: String,
)
    ensures
        ctx.register(name, description) matches Ok(next)
            ==> next.register(other_name, other_description)
                == Err::<RegisterMasterTrader, ErrorCode>(ErrorCode::AlreadyInitialized),
{
}

/// A follower record is created once: on what a successful `follow_trader`
/// leaves, following fails with `AlreadyFollowing`, with any amount.
pub proof fn lemma_follow_once(ctx: FollowTrader, amount: u64, again: u64)
    ensures
        ctx.follow(amount) matches Ok(next)
            ==> next.follow(again) == Err::<FollowTrader, ErrorCode>(ErrorCode::AlreadyFollowing),
{
}

} // verus!
