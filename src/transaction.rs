//! The parts of a new transaction that come from a freshly fetched access key.
//!
//! An access key state is consumed by the transaction built from it, so one
//! fetch never scopes two transactions.
use vstd::prelude::*;
use crate::query::AccessKeyState;

verus! {

/// The nonce that a transaction built from `state` carries: one past the
/// key's current nonce.
pub open spec fn planned_nonce(state: AccessKeyState) -> int {
    state.nonce + 1
}

/// Whether the node takes a transaction with nonce `nonce` for a key whose
/// current state is `current`: only a nonce above the key's own is new.
pub open spec fn nonce_is_fresh(nonce: int, current: AccessKeyState) -> bool {
    nonce > current.nonce
}

/// Sender, receiver, nonce and block reference of a transaction about to be
/// signed.
#[derive(Clone, Debug, PartialEq, Eq)]
pub struct TransactionPlan {
    pub signer_id: String,
    pub receiver_id: String,
    pub nonce: u64,
    pub block_hash: Vec<u8>,
}

/// Scopes a transaction from `signer_id` to `receiver_id` by the access key
/// state fetched just before: the next nonce, and the hash of the block the
/// state was read at. There is no next nonce once the key's nonce is the
/// largest one.
pub fn plan_transaction(signer_id: String, receiver_id: String, state: AccessKeyState) -> (r:
    Option<TransactionPlan>)
    ensures
        r is None <==> state.nonce == u64::MAX,
        r matches Some(p) ==> p.nonce == planned_nonce(state) && p.signer_id == signer_id
            && p.receiver_id == receiver_id && p.block_hash == state.block_hash,
{
    if state.nonce == u64::MAX {
        None
    } else {
        Some(
            TransactionPlan {
                signer_id,
                receiver_id,
                nonce: state.nonce + 1,
                block_hash: state.block_hash,
            },
        )
    }
}

/// Nonces grow from one transaction to the next. Let a first transaction be
/// planned from `first`, and let `second` be fetched after the node applied
/// it, so that the key's nonce has reached that transaction's. Then the next
/// transaction, planned from `second`, carries a strictly larger nonce, and
/// the first plan's nonce, used again, is no longer fresh at the node.
pub proof fn law_fresh_fetch_nonces_increase(first: AccessKeyState, second: AccessKeyState)
    requires
        second.nonce >= planned_nonce(first),
    ensures
        planned_nonce(second) > planned_nonce(first),
        nonce_is_fresh(planned_nonce(second), second),
        !nonce_is_fresh(planned_nonce(first), second),
{
}

} // verus!
