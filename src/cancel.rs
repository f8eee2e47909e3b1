//! The one-shot cancellation signal that a reader checks before it waits.

use vstd::prelude::*;
use tokio_util::sync::CancellationToken;

verus! {

#[verifier::external_type_specification]
#[verifier::external_body]
pub struct ExCancellationToken(CancellationToken);

/// Relies on `CancellationToken::new`: a fresh signal, not yet set.
#[verifier::external_body]
pub(crate) fn new_token() -> (r: CancellationToken) {
    CancellationToken::new()
}

/// Relies on `CancellationToken`'s `Clone`: a handle to the same signal.
#[verifier::external_body]
pub(crate) fn share_token(t: &CancellationToken) -> (r: CancellationToken) {
    t.clone()
}

/// Relies on `CancellationToken::is_cancelled`; another handle may set the
/// signal at any moment, so nothing is promised of the answer.
#[verifier::external_body]
pub(crate) fn token_is_cancelled(t: &CancellationToken) -> (r: bool) {
    t.is_cancelled()
}

} // verus!
