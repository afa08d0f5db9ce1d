use crate::authority::AuthorityPolicy;
use crate::errors::Errors;
use crate::treasury::Treasury;
use vstd::prelude::*;

verus! {

/// Singleton price configuration for the native currency.
///
/// Created once at system initialization, overwritten only by the
/// recognized administrator, never deleted.
#[derive(Clone, Copy, Debug, PartialEq, Eq, Structural)]
pub struct GlobalConfig {
    /// Lamports charged (on a purchase) or paid out (on a redemption) per
    /// chip unit.  Zero and arbitrarily large values are accepted.
    pub lamports_chip_price: u64,
    /// Discriminator byte of the derived config address.
    pub bump: u8,
}

/// One price entry per accepted payment asset, keyed by the asset's
/// identifier.  The identifier is immutable after creation.
#[derive(Clone, Copy, Debug, PartialEq, Eq, Structural)]
pub struct AssetPriceEntry {
    /// Opaque identifier of the payment asset.
    pub asset_id: u64,
    /// Minor units of the asset per chip unit.
    pub unit_price: u64,
    /// Discriminator byte of the derived entry address.
    pub bump: u8,
}

/// Price carried by the first entry matching `asset_id`, scanning from
/// the front.
pub open spec fn entries_price(entries: Seq<AssetPriceEntry>, asset_id: u64) -> Option<u64>
    decreases entries.len(),
{
    if entries.len() == 0 {
        None
    } else if entries[0].asset_id == asset_id {
        Some(entries[0].unit_price)
    } else {
        entries_price(entries.drop_first(), asset_id)
    }
}

/// Appending an entry leaves every present price alone; an absent
/// identifier afterwards carries the new entry's price, if it matches.
pub proof fn lemma_entries_price_push(entries: Seq<AssetPriceEntry>, entry: AssetPriceEntry, asset_id: u64)
    ensures
        entries_price(entries.push(entry), asset_id) == (if entries_price(entries, asset_id) is Some {
            entries_price(entries, asset_id)
        } else if entry.asset_id == asset_id {
            Some(entry.unit_price)
        } else {
            None
        }),
    decreases entries.len(),
{
    let pushed = entries.push(entry);
    if entries.len() == 0 {
        assert(pushed.len() == 1);
        assert(pushed[0] == entry);
        assert(entries_price(entries, asset_id) is None);
        if entry.asset_id == asset_id {
            assert(entries_price(pushed, asset_id) == Some(entry.unit_price));
        } else {
            assert(pushed.drop_first() =~= Seq::<AssetPriceEntry>::empty());
            assert(entries_price(pushed, asset_id) == entries_price(pushed.drop_first(), asset_id));
            assert(entries_price(pushed.drop_first(), asset_id) is None);
        }
    } else {
        assert(pushed[0] == entries[0]);
        lemma_entries_price_push(entries.drop_first(), entry, asset_id);
        if entries[0].asset_id == asset_id {
            assert(entries_price(pushed, asset_id) == Some(entries[0].unit_price));
            assert(entries_price(entries, asset_id) == Some(entries[0].unit_price));
        } else {
            assert(pushed.drop_first() =~= entries.drop_first().push(entry));
            assert(entries_price(pushed, asset_id) == entries_price(
                entries.drop_first().push(entry),
                asset_id,
            ));
            assert(entries_price(entries, asset_id) == entries_price(
                entries.drop_first(),
                asset_id,
            ));
        }
    }
}

/// Overwriting the first entry matching its own identifier changes that
/// identifier's price and no other.
pub proof fn lemma_entries_price_update(
    entries: Seq<AssetPriceEntry>,
    k: int,
    entry: AssetPriceEntry,
    asset_id: u64,
)
    requires
        0 <= k < entries.len(),
        entry.asset_id == entries[k].asset_id,
        forall|j: int| 0 <= j < k ==> (#[trigger] entries[j]).asset_id != entries[k].asset_id,
    ensures
        entries_price(entries.update(k, entry), asset_id) == (if asset_id == entries[k].asset_id {
            Some(entry.unit_price)
        } else {
            entries_price(entries, asset_id)
        }),
    decreases k,
{
    let updated = entries.update(k, entry);
    if k == 0 {
        assert(updated[0] == entry);
        if asset_id != entry.asset_id {
            assert(updated.drop_first() =~= entries.drop_first());
        }
    } else {
        assert(updated[0] == entries[0]);
        assert(updated.drop_first() =~= entries.drop_first().update(k - 1, entry));
        assert forall|j: int| 0 <= j < k - 1 implies (#[trigger] entries.drop_first()[j]).asset_id
            != entries.drop_first()[k - 1].asset_id by {
            assert(entries.drop_first()[j] == entries[j + 1]);
            assert(entries.drop_first()[k - 1] == entries[k]);
        }
        lemma_entries_price_update(entries.drop_first(), k - 1, entry, asset_id);
    }
}

/// The registry of per-asset price entries.
pub struct PriceRegistry {
    pub assets: Vec<AssetPriceEntry>,
}

impl PriceRegistry {
    /// Well-formed: at most one entry per asset identifier.
    pub open spec fn wf(&self) -> bool {
        forall|i: int, j: int|
            0 <= i < self.assets@.len() && 0 <= j < self.assets@.len() && i != j
                ==> (#[trigger] self.assets@[i]).asset_id != (#[trigger] self.assets@[j]).asset_id
    }

    /// Current price of `asset_id`, if the asset is registered.
    pub open spec fn spec_asset_price(&self, asset_id: u64) -> Option<u64> {
        entries_price(self.assets@, asset_id)
    }

    /// Whether `asset_id` has an entry.
    pub open spec fn spec_registered(&self, asset_id: u64) -> bool {
        self.spec_asset_price(asset_id) is Some
    }

    /// An empty registry: nothing is registered.
    pub fn new() -> (r: PriceRegistry)
        ensures
            r.wf(),
            r.assets@.len() == 0,
            forall|asset_id: u64| !(#[trigger] r.spec_registered(asset_id)),
    {
        PriceRegistry { assets: Vec::new() }
    }

    /// Index of the entry for `asset_id`, if any.
    fn find_asset(&self, asset_id: u64) -> (r: Option<usize>)
        ensures
            r matches Some(k) ==> 0 <= k < self.assets@.len()
                && self.assets@[k as int].asset_id == asset_id
                && (forall|j: int| 0 <= j < k ==> (#[trigger] self.assets@[j]).asset_id != asset_id)
                && self.spec_asset_price(asset_id) == Some(self.assets@[k as int].unit_price),
            r is None ==> self.spec_asset_price(asset_id) is None
                && (forall|j: int| 0 <= j < self.assets@.len()
                    ==> (#[trigger] self.assets@[j]).asset_id != asset_id),
    {
        let n = self.assets.len();
        proof {
            assert(self.assets@.skip(0) =~= self.assets@);
        }
        let mut i: usize = 0;
        while i < n
            invariant
                n == self.assets@.len(),
                0 <= i <= n,
                entries_price(self.assets@, asset_id) == entries_price(
                    self.assets@.skip(i as int),
                    asset_id,
                ),
                forall|j: int| 0 <= j < i ==> (#[trigger] self.assets@[j]).asset_id != asset_id,
            decreases n - i,
        {
            proof {
                assert(self.assets@.skip(i as int)[0] == self.assets@[i as int]);
            }
            if self.assets[i].asset_id == asset_id {
                return Some(i);
            }
            proof {
                assert(self.assets@.skip(i as int).drop_first() =~= self.assets@.skip(
                    i as int + 1,
                ));
            }
            i = i + 1;
        }
        proof {
            assert(self.assets@.skip(n as int).len() == 0);
        }
        None
    }

    /// Current price of `asset_id`, if the asset is registered.
    pub fn asset_price(&self, asset_id: u64) -> (r: Option<u64>)
        ensures
            r == self.spec_asset_price(asset_id),
    {
        match self.find_asset(asset_id) {
            Some(k) => Some(self.assets[k].unit_price),
            None => None,
        }
    }

    /// Administrator-only creation of a price entry for a new asset.
    ///
    /// Fails with `Unauthorized` for any other caller and with
    /// `AlreadyRegistered` if the asset already has an entry; either
    /// failure leaves the registry unchanged.  On success exactly the new
    /// entry is appended, and every other asset's price is unaffected.
    pub fn register_asset(
        &mut self,
        policy: &AuthorityPolicy,
        caller: u64,
        asset_id: u64,
        unit_price: u64,
        bump: u8,
    ) -> (r: Result<(), Errors>)
        requires
            old(self).wf(),
        ensures
            final(self).wf(),
            !policy.spec_is_authorized(caller) ==> r == Err::<(), Errors>(Errors::Unauthorized)
                && *final(self) == *old(self),
            policy.spec_is_authorized(caller) && old(self).spec_registered(asset_id) ==> r == Err::<
                (),
                Errors,
            >(Errors::AlreadyRegistered) && *final(self) == *old(self),
            policy.spec_is_authorized(caller) && !old(self).spec_registered(asset_id) ==> r == Ok::<
                (),
                Errors,
            >(()) && final(self).assets@ == old(self).assets@.push(
                (AssetPriceEntry { asset_id, unit_price, bump }),
            ) && final(self).spec_asset_price(asset_id) == Some(unit_price),
            forall|other: u64|
                other != asset_id ==> #[trigger] final(self).spec_asset_price(other) == old(
                    self,
                ).spec_asset_price(other),
    {
        if !policy.is_authorized(caller) {
            return Err(Errors::Unauthorized);
        }
        match self.find_asset(asset_id) {
            Some(_) => Err(Errors::AlreadyRegistered),
            None => {
                let entry = AssetPriceEntry { asset_id, unit_price, bump };
                let ghost before = self.assets@;
                self.assets.push(entry);
                proof {
                    assert forall|i: int, j: int|
                        0 <= i < self.assets@.len() && 0 <= j < self.assets@.len() && i != j implies (
                    #[trigger] self.assets@[i]).asset_id != (#[trigger] self.assets@[j]).asset_id by {
                        if i < before.len() && j < before.len() {
                            assert(self.assets@[i] == before[i]);
                            assert(self.assets@[j] == before[j]);
                        }
                    }
                    lemma_entries_price_push(before, entry, asset_id);
                    assert forall|other: u64| other != asset_id implies #[trigger] self
                        .spec_asset_price(other) == old(self).spec_asset_price(other) by {
                        lemma_entries_price_push(before, entry, other);
                    }
                }
                Ok(())
            },
        }
    }

    /// Administrator-only overwrite of an existing asset's price.
    ///
    /// Fails with `Unauthorized` for any other caller and with `NotFound`
    /// if the asset has no entry; either failure leaves the registry
    /// unchanged.  On success the asset carries the new price, every
    /// entry keeps its identifier and discriminator, and every other
    /// asset's price is unaffected.
    pub fn reprice_asset(
        &mut self,
        policy: &AuthorityPolicy,
        caller: u64,
        asset_id: u64,
        new_price: u64,
    ) -> (r: Result<(), Errors>)
        requires
            old(self).wf(),
        ensures
            final(self).wf(),
            !policy.spec_is_authorized(caller) ==> r == Err::<(), Errors>(Errors::Unauthorized)
                && *final(self) == *old(self),
            policy.spec_is_authorized(caller) && !old(self).spec_registered(asset_id) ==> r
                == Err::<(), Errors>(Errors::NotFound) && *final(self) == *old(self),
            policy.spec_is_authorized(caller) && old(self).spec_registered(asset_id) ==> r == Ok::<
                (),
                Errors,
            >(()) && final(self).spec_asset_price(asset_id) == Some(new_price),
            final(self).assets@.len() == old(self).assets@.len(),
            forall|k: int|
                0 <= k < old(self).assets@.len() ==> (#[trigger] final(self).assets@[k]).asset_id
                    == old(self).assets@[k].asset_id && final(self).assets@[k].bump == old(
                    self,
                ).assets@[k].bump,
            forall|other: u64|
                other != asset_id ==> #[trigger] final(self).spec_asset_price(other) == old(
                    self,
                ).spec_asset_price(other),
    {
        if !policy.is_authorized(caller) {
            return Err(Errors::Unauthorized);
        }
        match self.find_asset(asset_id) {
            None => Err(Errors::NotFound),
            Some(k) => {
                let entry = AssetPriceEntry {
                    asset_id,
                    unit_price: new_price,
                    bump: self.assets[k].bump,
                };
                let ghost before = self.assets@;
                self.assets[k] = entry;
                proof {
                    assert(self.assets@ =~= before.update(k as int, entry));
                    assert forall|i: int, j: int|
                        0 <= i < self.assets@.len() && 0 <= j < self.assets@.len() && i != j implies (
                    #[trigger] self.assets@[i]).asset_id != (#[trigger] self.assets@[j]).asset_id by {
                        assert((self.assets@[i]).asset_id == (before[i]).asset_id);
                        assert((self.assets@[j]).asset_id == (before[j]).asset_id);
                    }
                    lemma_entries_price_update(before, k as int, entry, asset_id);
                    assert forall|other: u64| other != asset_id implies #[trigger] self
                        .spec_asset_price(other) == old(self).spec_asset_price(other) by {
                        lemma_entries_price_update(before, k as int, entry, other);
                    }
                }
                Ok(())
            },
        }
    }
}

/// Price selection for a purchase: the native configuration when no
/// payment asset is named, the asset's registered entry otherwise.
pub fn chip_price(config: &GlobalConfig, registry: &PriceRegistry, asset_id: Option<u64>) -> (r:
    Result<u64, Errors>)
    ensures
        asset_id is None ==> r == Ok::<u64, Errors>(config.lamports_chip_price),
        asset_id is Some && registry.spec_asset_price(asset_id->Some_0) is Some ==> r == Ok::<
            u64,
            Errors,
        >(registry.spec_asset_price(asset_id->Some_0)->Some_0),
        asset_id is Some && registry.spec_asset_price(asset_id->Some_0) is None ==> r == Err::<
            u64,
            Errors,
        >(Errors::NotFound),
{
    match asset_id {
        None => Ok(config.lamports_chip_price),
        Some(id) => match registry.asset_price(id) {
            Some(p) => Ok(p),
            None => Err(Errors::NotFound),
        },
    }
}

/// Account view of the one-time system initialization.
pub struct Initialize {
    /// The authority policy the deployment recognizes.
    pub authority: AuthorityPolicy,
    /// Identity invoking the initialization.
    pub signer: u64,
    /// The singleton price configuration; absent until created here.
    pub global_config: Option<GlobalConfig>,
    /// The singleton custody record; absent until created here.
    pub treasury: Option<Treasury>,
    /// Discriminator byte derived for the configuration address.
    pub global_config_bump: u8,
    /// Discriminator byte derived for the treasury address.
    pub treasury_bump: u8,
}

/// Creates the price configuration and the treasury exactly once.
///
/// Fails with `Unauthorized` unless the recognized administrator signs,
/// and with `AlreadyInitialized` if either singleton already exists;
/// either failure changes nothing.  On success both records exist,
/// carrying the given price and the derived discriminator bytes.
pub fn initialize(ctx: &mut Initialize, lamports_price: u64) -> (r: Result<(), Errors>)
    ensures
        !old(ctx).authority.spec_is_authorized(old(ctx).signer) ==> r == Err::<(), Errors>(
            Errors::Unauthorized,
        ) && *final(ctx) == *old(ctx),
        old(ctx).authority.spec_is_authorized(old(ctx).signer) && (old(ctx).global_config is Some
            || old(ctx).treasury is Some) ==> r == Err::<(), Errors>(Errors::AlreadyInitialized)
            && *final(ctx) == *old(ctx),
        old(ctx).authority.spec_is_authorized(old(ctx).signer) && old(ctx).global_config is None
            && old(ctx).treasury is None ==> r == Ok::<(), Errors>(()) && final(ctx).global_config
            == Some((GlobalConfig { lamports_chip_price: lamports_price, bump: old(ctx).global_config_bump }))
            && final(ctx).treasury == Some((Treasury { bump: old(ctx).treasury_bump })),
        final(ctx).authority == old(ctx).authority,
        final(ctx).signer == old(ctx).signer,
        final(ctx).global_config_bump == old(ctx).global_config_bump,
        final(ctx).treasury_bump == old(ctx).treasury_bump,
{
    if !ctx.authority.is_authorized(ctx.signer) {
        return Err(Errors::Unauthorized);
    }
    if ctx.global_config.is_some() || ctx.treasury.is_some() {
        return Err(Errors::AlreadyInitialized);
    }
    ctx.global_config = Some(
        GlobalConfig { lamports_chip_price: lamports_price, bump: ctx.global_config_bump },
    );
    ctx.treasury = Some(Treasury { bump: ctx.treasury_bump });
    Ok(())
}

/// Account view of a native price update.
pub struct UpdateSolChipPrice {
    /// The authority policy the deployment recognizes.
    pub authority: AuthorityPolicy,
    /// Identity requesting the update.
    pub signer: u64,
    /// The singleton price configuration.
    pub global_config: GlobalConfig,
}

/// Administrator-only overwrite of the native chip price.
///
/// Fails with `Unauthorized` for any other caller, changing nothing.  On
/// success the configuration carries exactly the new price; no bound is
/// imposed on it.
pub fn update_sol_chip_price(ctx: &mut UpdateSolChipPrice, new_price: u64) -> (r: Result<
    (),
    Errors,
>)
    ensures
        !old(ctx).authority.spec_is_authorized(old(ctx).signer) ==> r == Err::<(), Errors>(
            Errors::Unauthorized,
        ) && *final(ctx) == *old(ctx),
        old(ctx).authority.spec_is_authorized(old(ctx).signer) ==> r == Ok::<(), Errors>(())
            && final(ctx).global_config.lamports_chip_price == new_price
            && final(ctx).global_config.bump == old(ctx).global_config.bump,
        final(ctx).authority == old(ctx).authority,
        final(ctx).signer == old(ctx).signer,
{
    if !ctx.authority.is_authorized(ctx.signer) {
        return Err(Errors::Unauthorized);
    }
    ctx.global_config.lamports_chip_price = new_price;
    Ok(())
}

} // verus!
