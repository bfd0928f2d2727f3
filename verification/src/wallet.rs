//! Wallets and the proof-of-work mining loop around them.

use vstd::prelude::*;
use vstd::string::{StringSliceAdditionalSpecFns, StrSliceExecFns};
use vstd::bytes::{spec_u64_to_le_bytes, u64_to_le_bytes};
use rand::RngCore;
use crate::actions::Qi;
use crate::pow::{sha256, sha256_of, POW_DIFFICULTY_BYTES, POW_REWARD};
use crate::strutil::{hex_of, lemma_hex_of_len, str_eq};

verus! {

/// A wallet: an address and the Qi it holds.
#[derive(Debug, Clone)]
pub struct Wallet {
    pub address: String,
    pub balance: Qi,
}

/// The wallet collection, in insertion order.
#[derive(Debug, Clone, Default)]
pub struct WalletStore {
    pub wallets: Vec<Wallet>,
}

/// Why a wallet operation failed.
#[derive(Clone, Copy, Debug, PartialEq, Eq, Structural)]
pub enum WalletError {
    SenderNotFound,
    RecipientNotFound,
    WalletNotFound,
    InsufficientBalance,
    NoValidNonce,
}

/// The first index at or after `i` holding the given address.
pub open spec fn wallet_index_from(s: Seq<Wallet>, address: Seq<char>, i: int) -> Option<int>
    decreases s.len() - i,
{
    if i < 0 || i >= s.len() {
        None
    } else if s[i].address@ == address {
        Some(i)
    } else {
        wallet_index_from(s, address, i + 1)
    }
}

/// The first index holding the given address.
pub open spec fn wallet_index(s: Seq<Wallet>, address: Seq<char>) -> Option<int> {
    wallet_index_from(s, address, 0)
}

/// Find a wallet's index by address.
fn find_wallet(wallets: &Vec<Wallet>, address: &str) -> (r: Option<usize>)
    ensures
        match r {
            Some(i) => i < wallets.len() && wallet_index(wallets@, address@) == Some(i as int),
            None => wallet_index(wallets@, address@) is None,
        },
{
    let n = wallets.len();
    let mut i: usize = 0;
    while i < n
        invariant
            0 <= i <= n,
            n == wallets.len(),
            wallet_index(wallets@, address@) == wallet_index_from(wallets@, address@, i as int),
        decreases n - i,
    {
        if str_eq(wallets[i].address.as_str(), address) {
            return Some(i);
        }
        i += 1;
    }
    None
}

impl WalletStore {
    /// Insert the wallet, replacing any wallet of the same address.
    pub fn upsert_wallet(&mut self, wallet: Wallet)
        ensures
            match wallet_index(old(self).wallets@, wallet.address@) {
                Some(i) => final(self).wallets@ == old(self).wallets@.update(i, wallet),
                None => final(self).wallets@ == old(self).wallets@.push(wallet),
            },
    {
        match find_wallet(&self.wallets, wallet.address.as_str()) {
            Some(i) => {
                self.wallets[i] = wallet;
            },
            None => {
                self.wallets.push(wallet);
            },
        }
    }

    /// Look a wallet up by address.
    pub fn get_wallet(&self, address: &str) -> (r: Option<&Wallet>)
        ensures
            match r {
                Some(w) => {
                    &&& wallet_index(self.wallets@, address@) is Some
                    &&& *w == self.wallets@[wallet_index(self.wallets@, address@)->0]
                },
                None => wallet_index(self.wallets@, address@) is None,
            },
    {
        match find_wallet(&self.wallets, address) {
            Some(i) => Some(&self.wallets[i]),
            None => None,
        }
    }

    /// Mutable access to a wallet by address. What the caller changes is
    /// the caller's to account for.
    pub fn get_wallet_mut(&mut self, address: &str) -> Option<&mut Wallet> {
        match find_wallet(&self.wallets, address) {
            Some(i) => Some(&mut self.wallets[i]),
            None => None,
        }
    }

    /// The first wallet in insertion order, if any.
    pub fn first_wallet(&self) -> (r: Option<&Wallet>)
        ensures
            match r {
                Some(w) => self.wallets@.len() > 0 && *w == self.wallets@[0],
                None => self.wallets@.len() == 0,
            },
    {
        if self.wallets.len() > 0 {
            Some(&self.wallets[0])
        } else {
            None
        }
    }
}

/// Relies on rand's `OsRng::fill_bytes` (the operating system's entropy
/// source): fills the buffer with bytes about which nothing is promised.
#[verifier::external_body]
pub(crate) fn os_random_bytes_20() -> (r: Vec<u8>)
    ensures
        r@.len() == 20,
{
    let mut bytes = [0u8; 20];
    rand::rngs::OsRng.fill_bytes(&mut bytes);
    bytes.to_vec()
}

/// Relies on hex::encode: each input byte becomes two lowercase hex digits,
/// high nibble first.
#[verifier::external_body]
pub(crate) fn hex_encode(data: &[u8]) -> (r: String)
    ensures
        r@ == hex_of(data@),
{
    hex::encode(data)
}

/// Create a wallet with a fresh 40-digit hex address and an empty balance.
pub fn create_wallet() -> (r: Wallet)
    ensures
        r.balance == 0,
        r.address@.len() == 40,
{
    let bytes = os_random_bytes_20();
    let address = hex_encode(bytes.as_slice());
    proof {
        lemma_hex_of_len(bytes@);
    }
    Wallet { address, balance: 0 }
}

/// Move Qi between two wallets. A zero amount or a self-transfer is a no-op.
/// The sender is debited before the recipient is looked up, so a transfer to
/// a missing recipient leaves the sender already debited.
pub fn transfer(store: &mut WalletStore, from: &str, to: &str, amount: Qi) -> (r: Result<
    (),
    WalletError,
>)
    ensures
        ({
            let s0 = old(store).wallets@;
            let fi = wallet_index(s0, from@);
            if amount == 0 || from@ == to@ {
                r is Ok && final(store).wallets@ == s0
            } else if fi is None {
                r == Err::<(), WalletError>(WalletError::SenderNotFound) && final(store).wallets@
                    == s0
            } else if s0[fi->0].balance < amount {
                r == Err::<(), WalletError>(WalletError::InsufficientBalance) && final(store).wallets@ == s0
            } else {
                let debited = s0.update(
                    fi->0,
                    Wallet { balance: (s0[fi->0].balance - amount) as u32, ..s0[fi->0] },
                );
                match wallet_index(debited, to@) {
                    None => r == Err::<(), WalletError>(WalletError::RecipientNotFound)
                        && final(store).wallets@ == debited,
                    Some(ti) => r is Ok && final(store).wallets@ == debited.update(
                        ti,
                        Wallet {
                            balance: crate::model::sat_add_u32(
                                debited[ti].balance as int,
                                amount as int,
                            ) as u32,
                            ..debited[ti]
                        },
                    ),
                }
            }
        }),
{
    if amount == 0 || str_eq(from, to) {
        return Ok(());
    }
    let fi = match find_wallet(&store.wallets, from) {
        Some(i) => i,
        None => {
            return Err(WalletError::SenderNotFound);
        },
    };
    if store.wallets[fi].balance < amount {
        return Err(WalletError::InsufficientBalance);
    }
    let fb = store.wallets[fi].balance;
    store.wallets[fi].balance = fb - amount;
    let ti = match find_wallet(&store.wallets, to) {
        Some(i) => i,
        None => {
            return Err(WalletError::RecipientNotFound);
        },
    };
    let tb = store.wallets[ti].balance;
    store.wallets[ti].balance = if tb <= u32::MAX - amount {
        tb + amount
    } else {
        u32::MAX
    };
    proof {
        let s0 = old(store).wallets@;
        let debited = s0.update(
            fi as int,
            Wallet { balance: (s0[fi as int].balance - amount) as u32, ..s0[fi as int] },
        );
        assert(store.wallets@ =~= debited.update(
            ti as int,
            Wallet {
                balance: crate::model::sat_add_u32(debited[ti as int].balance as int, amount as int)
                    as u32,
                ..debited[ti as int]
            },
        ));
    }
    Ok(())
}

/// The bytes hashed for a wallet proof of work: the address's UTF-8 bytes
/// followed by the little-endian encoding of the nonce.
pub open spec fn wallet_pow_input(address: &str, nonce: u64) -> Seq<u8> {
    address.spec_bytes() + spec_u64_to_le_bytes(nonce)
}

/// Whether the nonce solves the wallet proof of work: the digest's first
/// `POW_DIFFICULTY_BYTES` bytes are all zero.
pub open spec fn wallet_pow_ok(address: &str, nonce: u64) -> bool {
    forall|i: int|
        0 <= i < POW_DIFFICULTY_BYTES ==> sha256_of(wallet_pow_input(address, nonce))[i] == 0u8
}

/// Whether `nonce` is a valid proof of work for this wallet address.
pub fn wallet_pow_valid(address: &str, nonce: u64) -> (r: bool)
    ensures
        r == wallet_pow_ok(address, nonce),
{
    let mut data = address.as_bytes_vec();
    let mut nonce_bytes = u64_to_le_bytes(nonce);
    data.append(&mut nonce_bytes);
    proof {
        vstd::bytes::lemma_auto_spec_u64_to_from_le_bytes();
        assert(data@ =~= wallet_pow_input(address, nonce));
    }
    let hash = sha256(data.as_slice());
    let mut i: usize = 0;
    while i < POW_DIFFICULTY_BYTES
        invariant
            0 <= i <= POW_DIFFICULTY_BYTES,
            hash@ == sha256_of(wallet_pow_input(address, nonce)),
            hash@.len() == 32,
            forall|j: int| 0 <= j < i ==> hash@[j] == 0u8,
        decreases POW_DIFFICULTY_BYTES - i,
    {
        if hash[i] != 0 {
            return false;
        }
        i += 1;
    }
    true
}

/// Search for a valid wallet nonce, beginning at `start_nonce` (inclusive)
/// and wrapping past `u64::MAX` back to zero. Returns the first valid nonce
/// in that order, or `None` if no nonce at all is valid.
pub fn wallet_pow_solve(address: &str, start_nonce: u64) -> (r: Option<u64>)
    ensures
        match r {
            Some(n) => {
                &&& wallet_pow_ok(address, n)
                &&& n >= start_nonce ==> forall|m: u64|
                    start_nonce <= m < n ==> !wallet_pow_ok(address, m)
                &&& n < start_nonce ==> {
                    &&& forall|m: u64| m >= start_nonce ==> !wallet_pow_ok(address, m)
                    &&& forall|m: u64| m < n ==> !wallet_pow_ok(address, m)
                }
            },
            None => forall|m: u64| !wallet_pow_ok(address, m),
        },
{
    let mut nonce = start_nonce;
    loop
        invariant
            start_nonce <= nonce,
            forall|m: u64| start_nonce <= m < nonce ==> !wallet_pow_ok(address, m),
        ensures
            forall|m: u64| m >= start_nonce ==> !wallet_pow_ok(address, m),
        decreases u64::MAX - nonce,
    {
        if wallet_pow_valid(address, nonce) {
            return Some(nonce);
        }
        if nonce == u64::MAX {
            break;
        }
        nonce = nonce + 1;
    }
    let mut k: u64 = 0;
    while k < start_nonce
        invariant
            k <= start_nonce,
            forall|m: u64| m >= start_nonce ==> !wallet_pow_ok(address, m),
            forall|m: u64| m < k ==> !wallet_pow_ok(address, m),
        decreases start_nonce - k,
    {
        if wallet_pow_valid(address, k) {
            return Some(k);
        }
        k = k + 1;
    }
    None
}

/// Mine on a wallet: search for a valid nonce from `start_nonce` and credit
/// the reward to the wallet's balance.
pub fn mine(store: &mut WalletStore, address: &str, start_nonce: u64) -> (r: Result<
    (u64, Qi),
    WalletError,
>)
    ensures
        ({
            let s0 = old(store).wallets@;
            match wallet_index(s0, address@) {
                None => r == Err::<(u64, Qi), WalletError>(WalletError::WalletNotFound)
                    && final(store).wallets@ == s0,
                Some(i) => match r {
                    Ok((nonce, reward)) => {
                        &&& wallet_pow_ok(address, nonce)
                        &&& reward == POW_REWARD
                        &&& final(store).wallets@ == s0.update(
                            i,
                            Wallet {
                                balance: crate::model::sat_add_u32(
                                    s0[i].balance as int,
                                    POW_REWARD as int,
                                ) as u32,
                                ..s0[i]
                            },
                        )
                    },
                    Err(e) => e == WalletError::NoValidNonce && final(store).wallets@ == s0 && (
                    forall|m: u64| !wallet_pow_ok(address, m)),
                },
            }
        }),
{
    let i = match find_wallet(&store.wallets, address) {
        Some(i) => i,
        None => {
            return Err(WalletError::WalletNotFound);
        },
    };
    let nonce = match wallet_pow_solve(address, start_nonce) {
        Some(n) => n,
        None => {
            return Err(WalletError::NoValidNonce);
        },
    };
    let b = store.wallets[i].balance;
    store.wallets[i].balance = if b <= u32::MAX - POW_REWARD {
        b + POW_REWARD
    } else {
        u32::MAX
    };
    proof {
        assert(store.wallets@ =~= old(store).wallets@.update(
            i as int,
            Wallet {
                balance: crate::model::sat_add_u32(
                    old(store).wallets@[i as int].balance as int,
                    POW_REWARD as int,
                ) as u32,
                ..old(store).wallets@[i as int]
            },
        ));
    }
    Ok((nonce, POW_REWARD))
}

} // verus!
