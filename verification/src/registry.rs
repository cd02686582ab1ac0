//! The trader registry: a bounded list of approved traders that only its
//! admin may change.

use vstd::prelude::*;
use crate::account::Signer;
use crate::address::Address;
use crate::error::ErrorCode;

verus! {

/// The largest number of traders that a registry holds.
pub const MAX_TRADERS: usize = 100;

/// The approved traders, in the order in which they were added, and the
/// admin who curates them. A trader may occur more than once.
#[derive(Clone, Debug, PartialEq, Eq)]
pub struct TraderRegistry {
    pub admin: Address,
    pub traders: Vec<Address>,
}

/// A trader registry as a mathematical value.
pub struct TraderRegistryView {
    pub admin: Address,
    pub traders: Seq<Address>,
}

impl View for TraderRegistry {
    type V = TraderRegistryView;

    open spec fn view(&self) -> TraderRegistryView {
        TraderRegistryView { admin: self.admin, traders: self.traders@ }
    }
}

impl TraderRegistry {
    /// A registry is well formed when it holds no more traders than it may.
    pub open spec fn wf(self) -> bool {
        self.traders@.len() <= MAX_TRADERS
    }
}

impl TraderRegistryView {
    /// The registry that its admin has just set up.
    pub open spec fn new(admin: Address) -> TraderRegistryView {
        TraderRegistryView { admin, traders: Seq::empty() }
    }

    /// The outcome of `signer` adding `trader`: the registry afterwards, or
    /// the reason for which nothing happens.
    pub open spec fn add(self, signer: Address, trader: Address) -> Result<
        TraderRegistryView,
        ErrorCode,
    > {
        if signer != self.admin {
            Err(ErrorCode::NotAdmin)
        } else if self.traders.len() >= MAX_TRADERS {
            Err(ErrorCode::TraderListFull)
        } else {
            Ok(TraderRegistryView { traders: self.traders.push(trader), ..self })
        }
    }

    /// The outcome of `signer` removing `trader`: the registry afterwards,
    /// without the first entry that is `trader`, or the reason for which
    /// nothing happens.
    pub open spec fn remove(self, signer: Address, trader: Address) -> Result<
        TraderRegistryView,
        ErrorCode,
    > {
        if signer != self.admin {
            Err(ErrorCode::NotAdmin)
        } else if !self.traders.contains(trader) {
            Err(ErrorCode::TraderNotFound)
        } else {
            Ok(TraderRegistryView { traders: self.traders.remove_value(trader), ..self })
        }
    }
}

/// Accounts of `initialize_trader_registry`. `registry` is the place of the
/// registry, empty until it is initialized.
#[derive(Clone, Debug, PartialEq, Eq)]
pub struct InitializeTraderRegistry {
    pub registry: Option<TraderRegistry>,
    pub admin: Signer,
}

/// Accounts of `add_trader`.
#[derive(Clone, Debug, PartialEq, Eq)]
pub struct AddTrader {
    pub registry: TraderRegistry,
    pub admin: Signer,
}

/// Accounts of `remove_trader`.
#[derive(Clone, Debug, PartialEq, Eq)]
pub struct RemoveTrader {
    pub registry: TraderRegistry,
    pub admin: Signer,
}

/// Creates the trader registry, bound to the signing admin and empty. Fails
/// with `AlreadyInitialized` where the registry exists.
pub fn initialize_trader_registry(ctx: &mut InitializeTraderRegistry) -> (r: Result<
    (),
    ErrorCode,
>)
    ensures
        old(ctx).registry is Some ==> r == Err::<(), ErrorCode>(ErrorCode::AlreadyInitialized)
            && *final(ctx) == *old(ctx),
        (old(ctx).registry is None ==> {
            &&& r is Ok
            &&& final(ctx).registry is Some
            &&& final(ctx).registry->0@ == TraderRegistryView::new(old(ctx).admin.key)
            &&& final(ctx).registry->0.wf()
            &&& final(ctx).admin == old(ctx).admin
        }),
{
    if ctx.registry.is_some() {
        return Err(ErrorCode::AlreadyInitialized);
    }
    ctx.registry = Some(TraderRegistry { admin: ctx.admin.key, traders: Vec::new() });
    Ok(())
}

/// Adds `trader` at the end of the registry. A trader that is already there
/// is added once more.
///
/// Fails with `NotAdmin` where the signer is not the registry's admin, and
/// with `TraderListFull` where the registry holds `MAX_TRADERS` entries. A
/// failed call changes nothing.
pub fn add_trader(ctx: &mut AddTrader, trader: Address) -> (r: Result<(), ErrorCode>)
    ensures
        (match old(ctx).registry@.add(old(ctx).admin.key, trader) {
            Ok(next) => {
                &&& r is Ok
                &&& final(ctx).registry@ == next
                &&& final(ctx).admin == old(ctx).admin
            },
            Err(e) => r == Err::<(), ErrorCode>(e) && *final(ctx) == *old(ctx),
        }),
        old(ctx).admin.key == old(ctx).registry.admin
            && old(ctx).registry.traders@.len() == MAX_TRADERS
            ==> r == Err::<(), ErrorCode>(ErrorCode::TraderListFull)
                && final(ctx).registry.traders@.len() == MAX_TRADERS,
        old(ctx).registry.wf() ==> final(ctx).registry.wf(),
        r is Ok ==> final(ctx).registry.traders@.to_multiset()
            == old(ctx).registry.traders@.to_multiset().insert(trader),
{
    if ctx.admin.key != ctx.registry.admin {
        return Err(ErrorCode::NotAdmin);
    }
    if ctx.registry.traders.len() >= MAX_TRADERS {
        return Err(ErrorCode::TraderListFull);
    }
    proof {
        vstd::seq_lib::to_multiset_build(ctx.registry.traders@, trader);
    }
    ctx.registry.traders.push(trader);
    Ok(())
}

/// Removes the first entry of the registry that is `trader`; the entries
/// that remain keep their order. Where `trader` was added more than once,
/// the later entries stay.
///
/// Fails with `NotAdmin` where the signer is not the registry's admin, and
/// with `TraderNotFound` where no entry is `trader`. A failed call changes
/// nothing.
pub fn remove_trader(ctx: &mut RemoveTrader, trader: Address) -> (r: Result<(), ErrorCode>)
    ensures
        (match old(ctx).registry@.remove(old(ctx).admin.key, trader) {
            Ok(next) => {
                &&& r is Ok
                &&& final(ctx).registry@ == next
                &&& final(ctx).admin == old(ctx).admin
            },
            Err(e) => r == Err::<(), ErrorCode>(e) && *final(ctx) == *old(ctx),
        }),
        old(ctx).admin.key == old(ctx).registry.admin
            && !old(ctx).registry.traders@.contains(trader)
            ==> r == Err::<(), ErrorCode>(ErrorCode::TraderNotFound) && *final(ctx) == *old(ctx),
        old(ctx).registry.wf() ==> final(ctx).registry.wf(),
        r is Ok ==> final(ctx).registry.traders@.to_multiset()
            == old(ctx).registry.traders@.to_multiset().remove(trader),
{
    if ctx.admin.key != ctx.registry.admin {
        return Err(ErrorCode::NotAdmin);
    }
    let count: usize = ctx.registry.traders.len();
    let mut i: usize = 0;
    while i < count && ctx.registry.traders[i] != trader
        invariant
            *ctx == *old(ctx),
            count == ctx.registry.traders@.len(),
            i <= count,
            forall|j: int| 0 <= j < i ==> ctx.registry.traders@[j] != trader,
        decreases count - i,
    {
        i += 1;
    }
    if i == count {
        return Err(ErrorCode::TraderNotFound);
    }
    proof {
        let entries = ctx.registry.traders@;
        entries.index_of_first_ensures(trader);
        assert(entries.index_of_first(trader) == Some(i as int));
        vstd::seq_lib::to_multiset_remove(entries, i as int);
    }
    ctx.registry.traders.remove(i);
    Ok(())
}

} // verus!
