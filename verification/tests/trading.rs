use copy_trading::{
    follow_trader, initialize, register_master_trader, Account, Address, CopyTrading, ErrorCode,
    FollowTrader, Follower, Initialize, MasterTrader, RegisterMasterTrader, Signer, TokenAccount,
    MAX_DESCRIPTION_LEN, MAX_NAME_LEN,
};

fn authority() -> Signer {
    Signer { key: Address::new([11u8; 32]), lamports: 10 }
}

fn user_b() -> Signer {
    Signer { key: Address::new([12u8; 32]), lamports: 20 }
}

fn profile_address() -> Address {
    Address::new([13u8; 32])
}

fn profile(total_followers: u64, total_aum: u64) -> Account<MasterTrader> {
    Account {
        key: profile_address(),
        lamports: 1,
        data: MasterTrader {
            authority: authority().key,
            name: String::from("Alice"),
            description: String::from("desc"),
            total_followers,
            total_aum,
        },
    }
}

fn following(master_trader: Account<MasterTrader>, held: u64, escrowed: u64) -> FollowTrader {
    FollowTrader {
        master_trader,
        follower: None,
        user_token_account: TokenAccount { amount: held },
        vault_token_account: TokenAccount { amount: escrowed },
        user: user_b(),
    }
}

#[test]
fn copy_trading_starts_with_no_master_traders() {
    let mut ctx = Initialize { copy_trading: None, authority: authority() };
    assert_eq!(initialize(&mut ctx), Ok(()));
    assert_eq!(
        ctx.copy_trading,
        Some(CopyTrading { authority: authority().key, master_trader_count: 0 })
    );
    assert_eq!(ctx.authority, authority());
}

#[test]
fn copy_trading_cannot_be_initialized_twice() {
    let mut ctx = Initialize {
        copy_trading: Some(CopyTrading { authority: authority().key, master_trader_count: 6 }),
        authority: user_b(),
    };
    let before = ctx.clone();
    assert_eq!(initialize(&mut ctx), Err(ErrorCode::AlreadyInitialized));
    assert_eq!(ctx, before);
}

#[test]
fn follow_scenario_register_then_follow_with_500() {
    let mut init = Initialize { copy_trading: None, authority: authority() };
    assert_eq!(initialize(&mut init), Ok(()));

    let mut register = RegisterMasterTrader {
        copy_trading: init.copy_trading.unwrap(),
        master_trader: None,
        authority: authority(),
    };
    assert_eq!(
        register_master_trader(&mut register, String::from("Alice"), String::from("desc")),
        Ok(())
    );
    assert_eq!(register.copy_trading.master_trader_count, 1);

    let mut follow = FollowTrader {
        master_trader: Account {
            key: profile_address(),
            lamports: 0,
            data: register.master_trader.unwrap(),
        },
        follower: None,
        user_token_account: TokenAccount { amount: 800 },
        vault_token_account: TokenAccount { amount: 0 },
        user: user_b(),
    };
    assert_eq!(follow_trader(&mut follow, 500), Ok(()));
    assert_eq!(follow.master_trader.data.total_followers, 1);
    assert_eq!(follow.master_trader.data.total_aum, 500);
    assert_eq!(follow.vault_token_account.amount, 500);
    assert_eq!(follow.user_token_account.amount, 300);
    let record = follow.follower.unwrap();
    assert!(record.active);
    assert_eq!(record.user, user_b().key);
    assert_eq!(record.master_trader, profile_address());
    assert_eq!(record.deposited_amount, 500);
}

#[test]
fn register_creates_the_profile_and_counts_it() {
    let mut ctx = RegisterMasterTrader {
        copy_trading: CopyTrading { authority: user_b().key, master_trader_count: 41 },
        master_trader: None,
        authority: authority(),
    };
    assert_eq!(
        register_master_trader(&mut ctx, String::from("Alice"), String::from("desc")),
        Ok(())
    );
    assert_eq!(
        ctx,
        RegisterMasterTrader {
            copy_trading: CopyTrading { authority: user_b().key, master_trader_count: 42 },
            master_trader: Some(MasterTrader {
                authority: authority().key,
                name: String::from("Alice"),
                description: String::from("desc"),
                total_followers: 0,
                total_aum: 0,
            }),
            authority: authority(),
        }
    );
}

#[test]
fn register_twice_by_one_authority_gives_two_profiles() {
    let mut first = RegisterMasterTrader {
        copy_trading: CopyTrading { authority: authority().key, master_trader_count: 0 },
        master_trader: None,
        authority: authority(),
    };
    assert_eq!(
        register_master_trader(&mut first, String::from("Alice"), String::from("one")),
        Ok(())
    );
    let mut second = RegisterMasterTrader {
        copy_trading: first.copy_trading,
        master_trader: None,
        authority: authority(),
    };
    assert_eq!(
        register_master_trader(&mut second, String::from("Alice"), String::from("two")),
        Ok(())
    );
    assert_eq!(second.copy_trading.master_trader_count, 2);
    assert_eq!(first.master_trader.unwrap().description, "one");
    assert_eq!(second.master_trader.unwrap().description, "two");
}

#[test]
fn register_takes_the_longest_name_and_description() {
    assert_eq!(MAX_NAME_LEN, 100);
    assert_eq!(MAX_DESCRIPTION_LEN, 200);
    let name = "n".repeat(100);
    let description = "é".repeat(100);
    assert_eq!(description.len(), 200);
    let mut ctx = RegisterMasterTrader {
        copy_trading: CopyTrading { authority: authority().key, master_trader_count: 0 },
        master_trader: None,
        authority: authority(),
    };
    assert_eq!(register_master_trader(&mut ctx, name.clone(), description.clone()), Ok(()));
    let created = ctx.master_trader.unwrap();
    assert_eq!(created.name, name);
    assert_eq!(created.description, description);
}

#[test]
fn register_over_an_existing_profile_is_already_initialized() {
    let mut ctx = RegisterMasterTrader {
        copy_trading: CopyTrading { authority: authority().key, master_trader_count: 3 },
        master_trader: Some(profile(2, 900).data),
        authority: user_b(),
    };
    let before = ctx.clone();
    assert_eq!(
        register_master_trader(&mut ctx, String::from("Bob"), String::from("other")),
        Err(ErrorCode::AlreadyInitialized)
    );
    assert_eq!(ctx, before);
}

#[test]
fn register_when_the_count_is_at_its_limit_is_overflow() {
    let mut ctx = RegisterMasterTrader {
        copy_trading: CopyTrading { authority: authority().key, master_trader_count: u64::MAX },
        master_trader: None,
        authority: authority(),
    };
    let before = ctx.clone();
    assert_eq!(
        register_master_trader(&mut ctx, String::from("Alice"), String::from("desc")),
        Err(ErrorCode::Overflow)
    );
    assert_eq!(ctx, before);
}

#[test]
fn follow_moves_tokens_into_escrow_and_updates_the_totals() {
    let mut ctx = following(profile(3, 10_000), 750, 20);
    assert_eq!(follow_trader(&mut ctx, 250), Ok(()));
    assert_eq!(
        ctx,
        FollowTrader {
            master_trader: profile(4, 10_250),
            follower: Some(Follower {
                user: user_b().key,
                master_trader: profile_address(),
                deposited_amount: 250,
                active: true,
            }),
            user_token_account: TokenAccount { amount: 500 },
            vault_token_account: TokenAccount { amount: 270 },
            user: user_b(),
        }
    );
}

#[test]
fn follow_with_nothing_still_follows() {
    let mut ctx = following(profile(0, 0), 0, 0);
    assert_eq!(follow_trader(&mut ctx, 0), Ok(()));
    assert_eq!(ctx.master_trader.data.total_followers, 1);
    assert_eq!(ctx.master_trader.data.total_aum, 0);
    assert_eq!(ctx.follower.unwrap().deposited_amount, 0);
}

#[test]
fn follow_twice_is_already_following() {
    let mut ctx = following(profile(0, 0), 1_000, 0);
    assert_eq!(follow_trader(&mut ctx, 400), Ok(()));
    let before = ctx.clone();
    assert_eq!(follow_trader(&mut ctx, 100), Err(ErrorCode::AlreadyFollowing));
    assert_eq!(ctx, before);
    assert_eq!(ctx.master_trader.data.total_followers, 1);
    assert_eq!(ctx.vault_token_account.amount, 400);
}

#[test]
fn follow_with_more_than_the_user_holds_changes_nothing() {
    let mut ctx = following(profile(3, 10_000), 499, 20);
    let before = ctx.clone();
    assert_eq!(follow_trader(&mut ctx, 500), Err(ErrorCode::InsufficientFunds));
    assert_eq!(ctx, before);
    assert_eq!(ctx.follower, None);
    assert_eq!(ctx.master_trader.data.total_followers, 3);
    assert_eq!(ctx.master_trader.data.total_aum, 10_000);
}

#[test]
fn follow_that_would_wrap_the_escrow_is_overflow() {
    let mut ctx = following(profile(3, 10_000), 500, u64::MAX - 499);
    let before = ctx.clone();
    assert_eq!(follow_trader(&mut ctx, 500), Err(ErrorCode::Overflow));
    assert_eq!(ctx, before);
    assert_eq!(follow_trader(&mut ctx, 499), Ok(()));
    assert_eq!(ctx.vault_token_account.amount, u64::MAX);
}

#[test]
fn follow_that_would_wrap_the_follower_count_is_overflow() {
    let mut ctx = following(profile(u64::MAX, 10_000), 500, 0);
    let before = ctx.clone();
    assert_eq!(follow_trader(&mut ctx, 1), Err(ErrorCode::Overflow));
    assert_eq!(ctx, before);
}

#[test]
fn follow_that_would_wrap_the_assets_under_management_is_overflow() {
    let mut ctx = following(profile(3, u64::MAX - 9), 500, 0);
    let before = ctx.clone();
    assert_eq!(follow_trader(&mut ctx, 10), Err(ErrorCode::Overflow));
    assert_eq!(ctx, before);
    assert_eq!(follow_trader(&mut ctx, 9), Ok(()));
    assert_eq!(ctx.master_trader.data.total_aum, u64::MAX);
}

#[test]
fn follow_short_of_funds_comes_before_overflow() {
    let mut ctx = following(profile(u64::MAX, u64::MAX), 5, u64::MAX);
    assert_eq!(follow_trader(&mut ctx, 6), Err(ErrorCode::InsufficientFunds));
    assert_eq!(follow_trader(&mut ctx, 5), Err(ErrorCode::Overflow));
}

#[test]
fn profile_fits_up_to_the_limits_and_no_further() {
    assert!(MasterTrader::fits("", ""));
    assert!(MasterTrader::fits("Alice", "desc"));
    assert!(MasterTrader::fits(&"n".repeat(100), &"d".repeat(200)));
    assert!(!MasterTrader::fits(&"n".repeat(101), "desc"));
    assert!(!MasterTrader::fits("Alice", &"d".repeat(201)));
    // Bytes count, not characters.
    assert!(MasterTrader::fits(&"é".repeat(50), &"é".repeat(100)));
    assert!(!MasterTrader::fits(&"é".repeat(51), "desc"));
    assert!(!MasterTrader::fits("Alice", &"é".repeat(101)));
}
