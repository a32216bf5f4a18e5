//! Reading an account's access key and a contract's view results out of the
//! node's query responses.
//!
//! Both reads are issued at the "final" finality: the most recent finalized
//! block, never a block that may still be reverted.
use vstd::prelude::*;

verus! {

/// How settled the block a query reads from must be.
#[derive(Clone, Copy, Debug, PartialEq, Eq)]
pub enum Finality {
    /// The latest block, which may still be reverted.
    Optimistic,
    /// The most recent finalized block.
    Final,
}

/// The finality every read of this library is issued at.
pub fn query_finality() -> (r: Finality)
    ensures
        r == Finality::Final,
{
    Finality::Final
}

/// What an access key allows its holder to sign. Amounts are in yoctoNEAR.
#[derive(Clone, Debug, PartialEq, Eq)]
pub enum KeyPermission {
    /// Calls of the listed methods (all when the list is empty) on one
    /// receiver, paid from an optional allowance.
    FunctionCall { allowance: Option<u128>, receiver_id: String, method_names: Vec<String> },
    /// Any transaction.
    FullAccess,
    /// A function-call key that pays from a balance of its own.
    GasKeyFunctionCall {
        balance: u128,
        num_nonces: u16,
        allowance: Option<u128>,
        receiver_id: String,
        method_names: Vec<String>,
    },
    /// A full-access key that pays from a balance of its own.
    GasKeyFullAccess { balance: u128, num_nonces: u16 },
}

/// An account key's state as observed at one finalized block.
#[derive(Clone, Debug, PartialEq, Eq)]
pub struct AccessKeyState {
    pub nonce: u64,
    pub permission: KeyPermission,
    pub block_height: u64,
    pub block_hash: Vec<u8>,
}

/// The payload of a query response, as far as this library reads it.
#[derive(Clone, Debug, PartialEq, Eq)]
pub enum QueryResponseKind {
    /// An access key view.
    AccessKey { nonce: u64, permission: KeyPermission },
    /// The result of a read-only contract call.
    CallResult { result: Vec<u8>, logs: Vec<String> },
    /// Any other kind of view (account, code, state, key list).
    Other,
}

/// A query response together with the block it was answered at.
#[derive(Clone, Debug, PartialEq, Eq)]
pub struct QueryResponse {
    pub kind: QueryResponseKind,
    pub block_height: u64,
    pub block_hash: Vec<u8>,
}

/// A query that the node did not answer with a response.
#[derive(Clone, Debug, PartialEq, Eq)]
pub enum QueryFailure {
    /// The contract's own read path failed; the node's message.
    ContractExecution(String),
    /// Any other transport or protocol failure; its description.
    Transport(String),
}

/// The text of a failed query, verbatim.
pub open spec fn failure_text(f: QueryFailure) -> Seq<char> {
    match f {
        QueryFailure::ContractExecution(m) => m@,
        QueryFailure::Transport(m) => m@,
    }
}

/// Why an account's access key could not be fetched.
#[derive(Clone, Debug, PartialEq, Eq)]
pub enum AccessKeyError {
    /// The query failed; the failure's text, verbatim.
    Rpc(String),
    /// The node answered with a response that is not an access key view.
    UnexpectedResponseKind,
}

impl AccessKeyError {
    /// The diagnostic text of this error.
    pub fn message(&self) -> (r: String)
        ensures
            self is Rpc ==> r@ == "Failed to fetch public key info: "@ + self->Rpc_0@,
            self is UnexpectedResponseKind ==> r@ == "Could not retrieve access key"@,
    {
        match self {
            AccessKeyError::Rpc(detail) => {
                let mut m = String::from_str("Failed to fetch public key info: ");
                m.append(detail.as_str());
                m
            },
            AccessKeyError::UnexpectedResponseKind => String::from_str(
                "Could not retrieve access key",
            ),
        }
    }
}

fn failure_into_text(f: QueryFailure) -> (r: String)
    ensures
        r@ == failure_text(f),
{
    match f {
        QueryFailure::ContractExecution(m) => m,
        QueryFailure::Transport(m) => m,
    }
}

/// The access key state that an access key query produced: the key's nonce and
/// permission with the height and hash of the block it was read at.
pub fn access_key(response: Result<QueryResponse, QueryFailure>) -> (r: Result<
    AccessKeyState,
    AccessKeyError,
>)
    ensures
        response is Err ==> r is Err && r->Err_0 is Rpc && r->Err_0->Rpc_0@ == failure_text(
            response->Err_0,
        ),
        response is Ok && response->Ok_0.kind is AccessKey ==> r == Ok::<
            AccessKeyState,
            AccessKeyError,
        >(
            (AccessKeyState {
                nonce: response->Ok_0.kind->AccessKey_nonce,
                permission: response->Ok_0.kind->AccessKey_permission,
                block_height: response->Ok_0.block_height,
                block_hash: response->Ok_0.block_hash,
            }),
        ),
        response is Ok && !(response->Ok_0.kind is AccessKey) ==> r == Err::<
            AccessKeyState,
            AccessKeyError,
        >(AccessKeyError::UnexpectedResponseKind),
{
    match response {
        Err(f) => Err(AccessKeyError::Rpc(failure_into_text(f))),
        Ok(resp) => match resp.kind {
            QueryResponseKind::AccessKey { nonce, permission } => Ok(
                AccessKeyState {
                    nonce,
                    permission,
                    block_height: resp.block_height,
                    block_hash: resp.block_hash,
                },
            ),
            _ => Err(AccessKeyError::UnexpectedResponseKind),
        },
    }
}

/// Why a view call produced no result.
#[derive(Clone, Debug, PartialEq, Eq)]
pub enum ViewError {
    /// The query failed in transport; its description, verbatim.
    Rpc(String),
    /// The contract's read path failed; the node's message, verbatim.
    ContractExecution(String),
    /// The node answered with a response that is not a call result.
    UnexpectedResponseKind,
}

/// The raw bytes that a view call returned.
pub fn view_result(response: Result<QueryResponse, QueryFailure>) -> (r: Result<
    Vec<u8>,
    ViewError,
>)
    ensures
        response matches Err(QueryFailure::Transport(m)) ==> r == Err::<Vec<u8>, ViewError>(
            ViewError::Rpc(m),
        ),
        response matches Err(QueryFailure::ContractExecution(m)) ==> r == Err::<
            Vec<u8>,
            ViewError,
        >(ViewError::ContractExecution(m)),
        response is Ok && response->Ok_0.kind is CallResult ==> r is Ok && r->Ok_0@
            == response->Ok_0.kind->CallResult_result@,
        response is Ok && !(response->Ok_0.kind is CallResult) ==> r == Err::<
            Vec<u8>,
            ViewError,
        >(ViewError::UnexpectedResponseKind),
{
    match response {
        Err(QueryFailure::Transport(m)) => Err(ViewError::Rpc(m)),
        Err(QueryFailure::ContractExecution(m)) => Err(ViewError::ContractExecution(m)),
        Ok(resp) => match resp.kind {
            QueryResponseKind::CallResult { result, logs: _ } => Ok(result),
            _ => Err(ViewError::UnexpectedResponseKind),
        },
    }
}

} // verus!
