//! Command-side world mutations: buying ore sources into the persistent
//! stores, scattered over an area.

use vstd::prelude::*;
use rand::{Rng, SeedableRng};
use rand::rngs::StdRng;
use crate::actions::Qi;
use crate::model::{imin, sat_add_u64};
use crate::ore::OreKind;
use crate::qi::{QiSourceSpec, QiSourceStore, Spread};
use crate::space::Position;
use crate::wallet::{wallet_index, Wallet, WalletStore};

verus! {

/// Default capacity of each scattered source when none is given.
pub const DEFAULT_CHUNK: Qi = 10;

/// Qi price per unit of capacity, by ore kind.
pub open spec fn spec_cost_multiplier(ore: OreKind) -> int {
    match ore {
        OreKind::Qi => 1,
        OreKind::Transistor => 100,
    }
}

/// A request to buy ore sources into the world.
#[derive(Debug, Clone)]
pub struct InfuseQiCommand {
    pub wallet: Option<String>,
    pub amount: Option<Qi>,
    pub count: u32,
    pub capacity: Qi,
    pub recharge: Qi,
    pub spread: Spread,
    pub seed: Option<u64>,
    pub ore: OreKind,
}

/// What an infusion did: the sources added, the new totals, and the charge.
#[derive(Debug, Clone)]
pub struct InfuseQiResult {
    pub added: Vec<QiSourceSpec>,
    pub total_after: usize,
    pub total_infused: u64,
    pub wallet_address: String,
    pub wallet_balance: Qi,
    pub charged: Qi,
    pub ore: OreKind,
}

/// Why an infusion was refused.
#[derive(Debug, Clone, Copy, PartialEq, Eq, Structural)]
pub enum InfuseError {
    NoWallets,
    WalletNotFound,
    AmountZero,
    CountZero,
    ChargeOverflow,
    InsufficientBalance,
}

/// Command-side world mutations.
pub struct WorldCommands;

#[verifier::external_type_specification]
#[verifier::external_body]
pub struct ExStdRng(StdRng);

/// Relies on rand's `StdRng::seed_from_u64`: a generator with a caller-fixed
/// seed. Nothing is assumed about the numbers it will produce.
#[verifier::external_body]
fn rng_from_seed(seed: u64) -> StdRng {
    StdRng::seed_from_u64(seed)
}

/// Relies on rand's `StdRng::from_entropy`: a generator seeded from the
/// operating system. Nothing is assumed about the numbers it will produce.
#[verifier::external_body]
fn rng_from_entropy() -> StdRng {
    StdRng::from_entropy()
}

/// Relies on rand's `Rng::gen_range` over an inclusive range: returns a
/// value within the (non-empty) bounds; nothing further is assumed.
#[verifier::external_body]
fn rng_range(rng: &mut StdRng, lo: i32, hi: i32) -> (r: i32)
    requires
        lo <= hi,
    ensures
        lo <= r <= hi,
{
    rng.gen_range(lo..=hi)
}

/// A uniformly drawn position within the spread's cube (coordinates wrap).
fn random_position(spread: Spread, rng: &mut StdRng) -> (r: Position)
    ensures
        exists|dx: int, dy: int, dz: int|
            {
                let radius = if spread.radius >= 0 {
                    spread.radius as int
                } else {
                    0
                };
                &&& -radius <= dx <= radius
                &&& -radius <= dy <= radius
                &&& -radius <= dz <= radius
                &&& r == #[trigger] spread.center.spec_offset(dx, dy, dz)
            },
{
    let radius = if spread.radius >= 0 {
        spread.radius
    } else {
        0
    };
    let dx = rng_range(rng, -radius, radius);
    let dy = rng_range(rng, -radius, radius);
    let dz = rng_range(rng, -radius, radius);
    let r = spread.center.offset(dx, dy, dz);
    proof {
        let radius_i = if spread.radius >= 0 {
            spread.radius as int
        } else {
            0
        };
        assert(-radius_i <= dx as int <= radius_i && -radius_i <= dy as int <= radius_i
            && -radius_i <= dz as int <= radius_i && r == spread.center.spec_offset(
            dx as int,
            dy as int,
            dz as int,
        ));
    }
    r
}

/// Whether every planned source carries the command's ore and recharge.
pub open spec fn specs_match_command(specs: Seq<QiSourceSpec>, cmd: InfuseQiCommand) -> bool {
    forall|i: int|
        0 <= i < specs.len() ==> (#[trigger] specs[i]).ore == cmd.ore && specs[i].recharge_per_tick
            == cmd.recharge
}

/// Total capacity across planned sources.
pub open spec fn specs_capacity_sum(specs: Seq<QiSourceSpec>, i: int) -> int
    decreases i,
{
    if i <= 0 {
        0
    } else {
        specs_capacity_sum(specs, i - 1) + specs[i - 1].capacity
    }
}

/// Prefix sums agree on sequences that agree on the prefix.
proof fn lemma_specs_sum_prefix(s1: Seq<QiSourceSpec>, s2: Seq<QiSourceSpec>, i: int)
    requires
        i <= s1.len(),
        i <= s2.len(),
        forall|j: int| 0 <= j < i ==> s1[j] == s2[j],
    ensures
        specs_capacity_sum(s1, i) == specs_capacity_sum(s2, i),
    decreases i,
{
    if i > 0 {
        lemma_specs_sum_prefix(s1, s2, i - 1);
    }
}

/// Plan the source records an infusion will add: either a fixed count of
/// sources at the requested capacity, or an `amount` of ore cut into chunks
/// of the requested capacity (default chunk when none given), scattered over
/// the spread.
pub fn build_specs(cmd: &InfuseQiCommand, rng: &mut StdRng) -> (r: Result<
    Vec<QiSourceSpec>,
    InfuseError,
>)
    ensures
        match r {
            Ok(specs) => {
                &&& specs_match_command(specs@, *cmd)
                &&& match cmd.amount {
                    Some(total) => total > 0 && specs_capacity_sum(specs@, specs@.len() as int)
                        == total,
                    None => cmd.count > 0 && specs@.len() == cmd.count && forall|i: int|
                        0 <= i < specs@.len() ==> (#[trigger] specs@[i]).capacity == cmd.capacity,
                }
            },
            Err(e) => match cmd.amount {
                Some(total) => total == 0 && e == InfuseError::AmountZero,
                None => cmd.count == 0 && e == InfuseError::CountZero,
            },
        },
{
    let mut specs: Vec<QiSourceSpec> = Vec::new();
    match cmd.amount {
        Some(total) => {
            if total == 0 {
                return Err(InfuseError::AmountZero);
            }
            let chunk: Qi = if cmd.capacity > 0 {
                cmd.capacity
            } else {
                DEFAULT_CHUNK
            };
            let mut remaining = total;
            while remaining > 0
                invariant
                    chunk > 0,
                    remaining <= total,
                    specs_match_command(specs@, *cmd),
                    specs_capacity_sum(specs@, specs@.len() as int) == total - remaining,
                decreases remaining,
            {
                let cap = if remaining < chunk {
                    remaining
                } else {
                    chunk
                };
                let position = random_position(cmd.spread, rng);
                let ghost specs_pre = specs@;
                specs.push(
                    QiSourceSpec { position, capacity: cap, recharge_per_tick: cmd.recharge, ore: cmd.ore },
                );
                proof {
                    lemma_specs_sum_prefix(specs@, specs_pre, specs_pre.len() as int);
                }
                remaining = remaining - cap;
            }
            Ok(specs)
        },
        None => {
            if cmd.count == 0 {
                return Err(InfuseError::CountZero);
            }
            let n = cmd.count;
            let mut i: u32 = 0;
            while i < n
                invariant
                    0 <= i <= n,
                    specs@.len() == i,
                    specs_match_command(specs@, *cmd),
                    forall|j: int|
                        0 <= j < specs@.len() ==> (#[trigger] specs@[j]).capacity == cmd.capacity,
                decreases n - i,
            {
                let position = random_position(cmd.spread, rng);
                specs.push(
                    QiSourceSpec {
                        position,
                        capacity: cmd.capacity,
                        recharge_per_tick: cmd.recharge,
                        ore: cmd.ore,
                    },
                );
                i = i + 1;
            }
            Ok(specs)
        },
    }
}

/// The Qi charged for a plan: the capacities (saturating in 64 bits) priced
/// at the per-ore multiplier, saturating in 32 bits.
pub open spec fn spec_charge(specs: Seq<QiSourceSpec>, ore: OreKind) -> int {
    imin(specs_capacity_sum(specs, specs.len() as int) * spec_cost_multiplier(ore), u32::MAX as int)
}

impl WorldCommands {
    /// Buy ore sources: plan the scatter, price it, charge the wallet, and
    /// append the new sources to the persistent store. The capacity total
    /// must fit the 32-bit charge before pricing; a wallet must exist and
    /// cover the price.
    pub fn infuse_qi(
        cmd: &InfuseQiCommand,
        wallet_store: &mut WalletStore,
        qi_store: &mut QiSourceStore,
    ) -> (r: Result<InfuseQiResult, InfuseError>)
        ensures
            match r {
                Ok(out) => {
                    &&& specs_match_command(out.added@, *cmd)
                    &&& out.charged as int == spec_charge(out.added@, cmd.ore)
                    &&& out.ore == cmd.ore
                    &&& final(qi_store).sources@ == old(qi_store).sources@ + out.added@
                    &&& final(qi_store).total_qi_infused as int == sat_add_u64(
                        old(qi_store).total_qi_infused as int,
                        out.charged as int,
                    )
                    &&& out.total_after as int == imin(
                        old(qi_store).sources@.len() + out.added@.len() as int,
                        usize::MAX as int,
                    )
                    &&& out.total_infused == final(qi_store).total_qi_infused
                    &&& wallet_index(old(wallet_store).wallets@, out.wallet_address@) is Some
                    &&& ({
                        let i = wallet_index(old(wallet_store).wallets@, out.wallet_address@)->0;
                        &&& old(wallet_store).wallets@[i].balance >= out.charged
                        &&& final(wallet_store).wallets@ == old(wallet_store).wallets@.update(
                            i,
                            Wallet {
                                balance: (old(wallet_store).wallets@[i].balance
                                    - out.charged) as u32,
                                ..old(wallet_store).wallets@[i]
                            },
                        )
                        &&& out.wallet_balance == final(wallet_store).wallets@[i].balance
                    })
                },
                Err(_) => final(qi_store).sources@ == old(qi_store).sources@
                    && final(qi_store).total_qi_infused == old(qi_store).total_qi_infused,
            },
    {
        let wallet_address: String = match &cmd.wallet {
            Some(addr) => addr.clone(),
            None => {
                match wallet_store.first_wallet() {
                    Some(w) => w.address.clone(),
                    None => {
                        return Err(InfuseError::NoWallets);
                    },
                }
            },
        };
        let mut rng: StdRng = match cmd.seed {
            Some(seed) => rng_from_seed(seed),
            None => rng_from_entropy(),
        };
        let specs = match build_specs(cmd, &mut rng) {
            Ok(s) => s,
            Err(e) => {
                return Err(e);
            },
        };

        // price the plan in 64 bits, then refuse anything over the 32-bit charge
        let ns = specs.len();
        let mut cap_sum: u64 = 0;
        let mut i: usize = 0;
        while i < ns
            invariant
                0 <= i <= ns,
                ns == specs.len(),
                cap_sum as int == imin(specs_capacity_sum(specs@, i as int), u64::MAX as int),
            decreases ns - i,
        {
            let c = specs[i].capacity;
            if cap_sum <= u64::MAX - c as u64 {
                cap_sum = cap_sum + c as u64;
            } else {
                cap_sum = u64::MAX;
            }
            i += 1;
        }
        if cap_sum > u32::MAX as u64 {
            return Err(InfuseError::ChargeOverflow);
        }
        let multiplier: u32 = match cmd.ore {
            OreKind::Qi => 1,
            OreKind::Transistor => 100,
        };
        let base = cap_sum as u32;
        proof {
            assert(base as u64 * multiplier as u64 <= u32::MAX as u64 * 100) by (nonlinear_arith)
                requires
                    base <= u32::MAX,
                    multiplier <= 100,
            ;
        }
        let lifted: u64 = base as u64 * multiplier as u64;
        let charged: u32 = if lifted > u32::MAX as u64 {
            u32::MAX
        } else {
            lifted as u32
        };
        proof {
            assert(charged as int == spec_charge(specs@, cmd.ore));
        }

        let wi = match find_wallet_index(wallet_store, wallet_address.as_str()) {
            Some(i) => i,
            None => {
                return Err(InfuseError::WalletNotFound);
            },
        };
        if wallet_store.wallets[wi].balance < charged {
            return Err(InfuseError::InsufficientBalance);
        }
        let wb = wallet_store.wallets[wi].balance;
        wallet_store.wallets[wi].balance = wb - charged;
        let wallet_balance = wallet_store.wallets[wi].balance;

        let sl = specs.len();
        let cur_len = qi_store.sources.len();
        let total_after: usize = if cur_len <= usize::MAX - sl {
            cur_len + sl
        } else {
            usize::MAX
        };
        let prev_total = qi_store.total_qi_infused;
        qi_store.total_qi_infused = if prev_total <= u64::MAX - charged as u64 {
            prev_total + charged as u64
        } else {
            u64::MAX
        };
        let ghost infused_now = qi_store.total_qi_infused;
        let mut k: usize = 0;
        let nk = specs.len();
        while k < nk
            invariant
                0 <= k <= nk,
                nk == specs.len(),
                qi_store.sources@ == old(qi_store).sources@ + specs@.take(k as int),
                qi_store.total_qi_infused == infused_now,
            decreases nk - k,
        {
            qi_store.sources.push(specs[k]);
            proof {
                assert(qi_store.sources@ =~= old(qi_store).sources@ + specs@.take(k as int + 1));
            }
            k += 1;
        }
        proof {
            assert(specs@.take(nk as int) =~= specs@);
            assert(wallet_store.wallets@ =~= old(wallet_store).wallets@.update(
                wi as int,
                Wallet {
                    balance: (old(wallet_store).wallets@[wi as int].balance - charged) as u32,
                    ..old(wallet_store).wallets@[wi as int]
                },
            ));
        }

        Ok(
            InfuseQiResult {
                added: specs,
                total_after,
                total_infused: qi_store.total_qi_infused,
                wallet_address,
                wallet_balance,
                charged,
                ore: cmd.ore,
            },
        )
    }
}

/// Find a wallet's index by address.
fn find_wallet_index(store: &WalletStore, address: &str) -> (r: Option<usize>)
    ensures
        match r {
            Some(i) => i < store.wallets.len() && wallet_index(store.wallets@, address@) == Some(
                i as int,
            ),
            None => wallet_index(store.wallets@, address@) is None,
        },
{
    let n = store.wallets.len();
    let mut i: usize = 0;
    while i < n
        invariant
            0 <= i <= n,
            n == store.wallets.len(),
            wallet_index(store.wallets@, address@) == crate::wallet::wallet_index_from(
                store.wallets@,
                address@,
                i as int,
            ),
        decreases n - i,
    {
        if crate::strutil::str_eq(store.wallets[i].address.as_str(), address) {
            return Some(i);
        }
        i += 1;
    }
    None
}

} // verus!
