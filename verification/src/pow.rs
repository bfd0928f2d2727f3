//! Proof-of-work primitive: a digest over little-endian-encoded fields is
//! accepted iff its first `POW_DIFFICULTY_BYTES` bytes are all zero.

use vstd::prelude::*;
use vstd::bytes::{spec_u64_to_le_bytes, u64_to_le_bytes};
use sha2::Digest;
use crate::actions::{AgentId, Qi};

verus! {

/// Number of leading zero bytes required for PoW validity.
pub const POW_DIFFICULTY_BYTES: usize = 2;

/// Qi reward for a valid PoW.
pub const POW_REWARD: Qi = 5;

/// The SHA-256 digest of a byte sequence. The digest is a pure function of
/// the input bytes alone; nothing further is assumed about its value.
pub uninterp spec fn sha256_of(data: Seq<u8>) -> Seq<u8>;

/// Relies on sha2's `Sha256` (via the `Digest` trait): returns the 32-byte
/// SHA-256 digest of `data`, a function of `data` alone.
#[verifier::external_body]
pub(crate) fn sha256(data: &[u8]) -> (r: Vec<u8>)
    ensures
        r@ == sha256_of(data@),
        r@.len() == 32,
{
    let mut hasher = sha2::Sha256::new();
    hasher.update(data);
    hasher.finalize().to_vec()
}

/// The bytes hashed for an in-world proof of work: the little-endian
/// encodings of the agent id, the tick, and the nonce, in that order.
pub open spec fn pow_input(agent_id: AgentId, tick: u64, nonce: u64) -> Seq<u8> {
    spec_u64_to_le_bytes(agent_id) + spec_u64_to_le_bytes(tick) + spec_u64_to_le_bytes(nonce)
}

/// Whether the nonce solves the proof of work for this agent and tick: the
/// digest's first `POW_DIFFICULTY_BYTES` bytes are all zero.
pub open spec fn pow_ok(agent_id: AgentId, tick: u64, nonce: u64) -> bool {
    forall|i: int|
        0 <= i < POW_DIFFICULTY_BYTES ==> sha256_of(pow_input(agent_id, tick, nonce))[i] == 0u8
}

/// The digest bytes for an in-world proof of work.
fn pow_hash(agent_id: AgentId, tick: u64, nonce: u64) -> (r: Vec<u8>)
    ensures
        r@ == sha256_of(pow_input(agent_id, tick, nonce)),
        r@.len() == 32,
{
    let mut data = u64_to_le_bytes(agent_id);
    let mut tick_bytes = u64_to_le_bytes(tick);
    let mut nonce_bytes = u64_to_le_bytes(nonce);
    data.append(&mut tick_bytes);
    data.append(&mut nonce_bytes);
    proof {
        vstd::bytes::lemma_auto_spec_u64_to_from_le_bytes();
        assert(data@ =~= pow_input(agent_id, tick, nonce));
    }
    sha256(data.as_slice())
}

/// Whether `nonce` is a valid proof of work for `agent_id` at `tick`.
pub fn pow_valid(agent_id: AgentId, tick: u64, nonce: u64) -> (r: bool)
    ensures
        r == pow_ok(agent_id, tick, nonce),
{
    let hash = pow_hash(agent_id, tick, nonce);
    let mut i: usize = 0;
    while i < POW_DIFFICULTY_BYTES
        invariant
            0 <= i <= POW_DIFFICULTY_BYTES,
            hash@ == sha256_of(pow_input(agent_id, tick, nonce)),
            hash@.len() == 32,
            forall|j: int| 0 <= j < i ==> hash@[j] == 0u8,
        decreases POW_DIFFICULTY_BYTES - i,
    {
        if hash[i] != 0 {
            return false;
        }
        i += 1;
    }
    true
}

/// Search for a valid nonce, beginning at `start_nonce` (inclusive) and
/// wrapping past `u64::MAX` back to zero. Returns the first valid nonce in
/// that order, or `None` if no nonce at all is valid.
pub fn pow_solve(agent_id: AgentId, tick: u64, start_nonce: u64) -> (r: Option<u64>)
    ensures
        match r {
            Some(n) => {
                &&& pow_ok(agent_id, tick, n)
                &&& n >= start_nonce ==> forall|m: u64|
                    start_nonce <= m < n ==> !pow_ok(agent_id, tick, m)
                &&& n < start_nonce ==> {
                    &&& forall|m: u64| m >= start_nonce ==> !pow_ok(agent_id, tick, m)
                    &&& forall|m: u64| m < n ==> !pow_ok(agent_id, tick, m)
                }
            },
            None => forall|m: u64| !pow_ok(agent_id, tick, m),
        },
{
    let mut nonce = start_nonce;
    loop
        invariant
            start_nonce <= nonce,
            forall|m: u64| start_nonce <= m < nonce ==> !pow_ok(agent_id, tick, m),
        ensures
            forall|m: u64| m >= start_nonce ==> !pow_ok(agent_id, tick, m),
        decreases u64::MAX - nonce,
    {
        if pow_valid(agent_id, tick, nonce) {
            return Some(nonce);
        }
        if nonce == u64::MAX {
            break;
        }
        nonce = nonce + 1;
    }
    let mut k: u64 = 0;
    while k < start_nonce
        invariant
            k <= start_nonce,
            forall|m: u64| m >= start_nonce ==> !pow_ok(agent_id, tick, m),
            forall|m: u64| m < k ==> !pow_ok(agent_id, tick, m),
        decreases start_nonce - k,
    {
        if pow_valid(agent_id, tick, k) {
            return Some(k);
        }
        k = k + 1;
    }
    None
}

} // verus!
