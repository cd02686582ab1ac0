//! Bookkeeping for a copy-trading platform: custody of deposited value, an
//! admin-curated registry of approved traders, a registry of master traders
//! and the escrow that backs each follower relationship.
//!
//! Every instruction is a function from an accounts context and its argument
//! to either success, with the context updated, or one typed error, with the
//! context left exactly as it was.

pub mod account;
pub mod address;
pub mod error;
pub mod funds;
pub mod pda;
pub mod registry;
pub mod trading;

pub use account::{Account, Signer, TokenAccount};
pub use address::Address;
pub use error::ErrorCode;
pub use funds::{
    deposit_funds, initialize_user_funds, withdraw_funds, DepositFunds, FundsCall,
    InitializeUserFunds, UserFunds, WithdrawFunds,
};
pub use pda::{follower_address, user_funds_address, vault_address};
pub use registry::{
    add_trader, initialize_trader_registry, remove_trader, AddTrader, InitializeTraderRegistry,
    RemoveTrader, TraderRegistry, TraderRegistryView, MAX_TRADERS,
};
pub use trading::{
    follow_trader, initialize, register_master_trader, CopyTrading, FollowTrader, Follower,
    Initialize, MasterTrader, RegisterMasterTrader, MAX_DESCRIPTION_LEN, MAX_NAME_LEN,
};
