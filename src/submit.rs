//! Submission of a signed transaction, with retries on timeouts.
//!
//! The caller sends the transaction and reports each response to a
//! [`Submission`]; the submission decides whether to send the very same
//! transaction again or to hand the outcome back. A timeout reported by the
//! RPC layer does not mean that the node refused the transaction, and sending
//! the same signed transaction again is harmless, so timeouts are retried
//! without bound. Any other failure is final. The retries have no limit and no
//! backoff, which suits a local sandbox; anything facing a real network needs
//! a deadline on top.
use vstd::prelude::*;

verus! {

/// Whether `needle` occurs in `hay` as a contiguous run of characters.
pub open spec fn has_substring(hay: Seq<char>, needle: Seq<char>) -> bool {
    exists|i: int|
        0 <= i && i + needle.len() <= hay.len() && #[trigger] hay.subrange(i, i + needle.len())
            == needle
}

/// Whether `needle` occurs in `hay`.
pub fn contains_substring(hay: &str, needle: &str) -> (r: bool)
    ensures
        r == has_substring(hay@, needle@),
{
    let h = hay.unicode_len();
    let n = needle.unicode_len();
    if n > h {
        return false;
    }
    let mut i: usize = 0;
    while i <= h - n
        invariant
            h == hay@.len(),
            n == needle@.len(),
            n <= h,
            i <= h - n + 1,
            forall|k: int| 0 <= k < i ==> #[trigger] hay@.subrange(k, k + n) != needle@,
        decreases h - n + 1 - i,
    {
        let mut j: usize = 0;
        let mut same = true;
        while j < n
            invariant
                h == hay@.len(),
                n == needle@.len(),
                i + n <= h,
                j <= n,
                same <==> forall|m: int| 0 <= m < j ==> hay@[i + m] == needle@[m],
            decreases n - j,
        {
            if hay.get_char(i + j) != needle.get_char(j) {
                same = false;
            }
            j = j + 1;
        }
        if same {
            assert(hay@.subrange(i as int, i + n) =~= needle@);
            return true;
        }
        assert(hay@.subrange(i as int, i + n)[0] == hay@[i as int + 0]);
        assert(hay@.subrange(i as int, i + n) != needle@) by {
            let m = choose|m: int| 0 <= m < n && hay@[i + m] != needle@[m];
            assert(hay@.subrange(i as int, i + n)[m] == hay@[i + m]);
        }
        i = i + 1;
    }
    false
}

/// The structured detail that an RPC error carries.
#[derive(Clone, Debug, PartialEq, Eq)]
pub enum ErrorDetail {
    /// The error carries no detail.
    Absent,
    /// The detail is a string.
    Text(String),
    /// The detail is a structured value other than a string.
    Structured,
}

/// An error that a broadcast-and-commit call returned.
#[derive(Clone, Debug, PartialEq, Eq)]
pub struct BroadcastError {
    /// The error's structured detail.
    pub detail: ErrorDetail,
    /// The error's full description, kept for diagnostics.
    pub message: String,
}

/// Whether a broadcast error is a timeout of the RPC layer: its detail is a
/// string that mentions `Timeout`.
pub open spec fn is_timeout(e: BroadcastError) -> bool {
    e.detail matches ErrorDetail::Text(t) && has_substring(t@, "Timeout"@)
}

/// Whether a response to a broadcast is a timeout of the RPC layer.
pub open spec fn is_timeout_response<O>(response: Result<O, BroadcastError>) -> bool {
    response is Err && is_timeout(response->Err_0)
}

/// What a broadcast error means for the submission.
#[derive(Clone, Debug, PartialEq, Eq)]
pub enum BroadcastErrorKind {
    /// A transient timeout; the same transaction is to be sent again.
    TimeoutRetryable,
    /// The node refused the transaction; the error's description.
    Rejected(String),
}

/// Sorts a broadcast error into a retryable timeout or a final rejection.
pub fn classify_broadcast_error(e: BroadcastError) -> (r: BroadcastErrorKind)
    ensures
        is_timeout(e) ==> r == BroadcastErrorKind::TimeoutRetryable,
        !is_timeout(e) ==> r == BroadcastErrorKind::Rejected(e.message),
{
    let timeout = match &e.detail {
        ErrorDetail::Text(t) => contains_substring(t.as_str(), "Timeout"),
        _ => false,
    };
    if timeout {
        BroadcastErrorKind::TimeoutRetryable
    } else {
        BroadcastErrorKind::Rejected(e.message)
    }
}

/// Why a submitted transaction produced no execution outcome.
#[derive(Clone, Debug, PartialEq, Eq)]
pub enum SubmitError {
    /// The node refused the transaction; the error's description, verbatim.
    TransactionRejected(String),
}

impl SubmitError {
    /// The diagnostic text of this error.
    pub fn message(&self) -> (r: String)
        ensures
            r@ == "Error transaction: "@ + self->TransactionRejected_0@,
    {
        match self {
            SubmitError::TransactionRejected(detail) => {
                let mut m = String::from_str("Error transaction: ");
                m.append(detail.as_str());
                m
            },
        }
    }
}

/// What to do after a response to a broadcast.
#[derive(Debug, PartialEq, Eq)]
pub enum SubmitStep<O> {
    /// Send the identical transaction again.
    Resubmit,
    /// The submission is over, with this result.
    Done(Result<O, SubmitError>),
}

/// The step that follows a response to a broadcast.
pub open spec fn step_of<O>(response: Result<O, BroadcastError>) -> SubmitStep<O> {
    match response {
        Ok(o) => SubmitStep::Done(Ok(o)),
        Err(e) => if is_timeout(e) {
            SubmitStep::Resubmit
        } else {
            SubmitStep::Done(Err(SubmitError::TransactionRejected(e.message)))
        },
    }
}

/// One signed transaction on its way to the node. It holds the transaction
/// and never changes it, so every retry sends exactly what was signed.
pub struct Submission<T> {
    transaction: T,
}

impl<T> Submission<T> {
    pub closed spec fn spec_transaction(&self) -> T {
        self.transaction
    }

    /// Starts the submission of `transaction`.
    pub fn new(transaction: T) -> (r: Submission<T>)
        ensures
            r.spec_transaction() == transaction,
    {
        Submission { transaction }
    }

    /// The transaction to send, on the first attempt and on every retry.
    pub fn transaction(&self) -> (r: &T)
        ensures
            *r == self.spec_transaction(),
    {
        &self.transaction
    }

    /// Decides what follows a response to the broadcast of this transaction:
    /// a timeout is retried; a success or any other error ends the submission.
    pub fn on_response<O>(&self, response: Result<O, BroadcastError>) -> (r: SubmitStep<O>)
        ensures
            r == step_of(response),
    {
        match response {
            Ok(o) => SubmitStep::Done(Ok(o)),
            Err(e) => match classify_broadcast_error(e) {
                BroadcastErrorKind::TimeoutRetryable => SubmitStep::Resubmit,
                BroadcastErrorKind::Rejected(m) => SubmitStep::Done(
                    Err(SubmitError::TransactionRejected(m)),
                ),
            },
        }
    }
}

/// The result that a run of responses settles on, with the number of
/// broadcasts it took, or `None` while every response so far was a timeout.
pub open spec fn settle<O>(responses: Seq<Result<O, BroadcastError>>) -> Option<
    (nat, Result<O, SubmitError>),
>
    decreases responses.len(),
{
    if responses.len() == 0 {
        None
    } else {
        match step_of(responses[0]) {
            SubmitStep::Done(r) => Some((1, r)),
            SubmitStep::Resubmit => match settle(responses.drop_first()) {
                Some((n, r)) => Some((n + 1, r)),
                None => None,
            },
        }
    }
}

/// Timeouts are absorbed: when the first `k` responses are timeouts and the
/// next is not, the submission ends after `k + 1` broadcasts of the same
/// transaction with the result of that response alone. A success is returned
/// once, and nothing after it is sent.
pub proof fn law_timeouts_absorbed<O>(responses: Seq<Result<O, BroadcastError>>, k: nat)
    requires
        k < responses.len(),
        forall|i: int| 0 <= i < k ==> is_timeout_response(#[trigger] responses[i]),
        !is_timeout_response(responses[k as int]),
    ensures
        settle(responses) == Some((k + 1, step_of(responses[k as int])->Done_0)),
        step_of(responses[k as int]) is Done,
    decreases k,
{
    if k > 0 {
        let rest = responses.drop_first();
        assert forall|i: int| 0 <= i < (k - 1) as nat implies is_timeout_response(
            #[trigger] rest[i],
        ) by {
            assert(rest[i] == responses[i + 1]);
        }
        assert(rest[(k - 1) as int] == responses[k as int]);
        law_timeouts_absorbed(rest, (k - 1) as nat);
        assert(is_timeout_response(responses[0]));
    }
}

} // verus!
