use tokio_util::sync::CancellationToken;
use vstd::prelude::*;

verus! {

#[verifier::external_type_specification]
#[verifier::external_body]
pub struct ExCancellationToken(CancellationToken);

/// `CancellationToken::new` of tokio-util: a token of its own, not yet cancelled. Nothing is
/// claimed of it.
#[verifier::external_body]
pub(crate) fn token_new() -> (token: CancellationToken) {
    CancellationToken::new()
}

/// `CancellationToken::clone` of tokio-util. The clone stands for the same cancellation as
/// the token it was made from: cancelling either cancels both, and the two compare equal.
pub assume_specification[ <CancellationToken as Clone>::clone ](
    token: &CancellationToken,
) -> (clone: CancellationToken)
    ensures
        clone == *token,
;

} // verus!
