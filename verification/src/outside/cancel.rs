//! Cancellation tokens.
use tokio_util::sync::CancellationToken;
use vstd::prelude::*;

verus! {

/// `tokio_util::sync::CancellationToken`: a flag that can be waited for.
#[verifier::external_type_specification]
#[verifier::external_body]
pub struct ExCancellationToken(CancellationToken);

/// `CancellationToken::new`: a fresh token. Nothing is said of which one.
pub assume_specification[ CancellationToken::new ]() -> CancellationToken
;

/// `CancellationToken::clone`: a second handle on the same token. Cancelling
/// one cancels the other, so the two stand for one value.
pub assume_specification[ <CancellationToken as Clone>::clone ](
    token: &CancellationToken,
) -> (r: CancellationToken)
    ensures
        r == *token,
;

/// `CancellationToken::child_token`: a token that is cancelled along with this
/// one. Nothing is said of which one.
pub assume_specification[ CancellationToken::child_token ](
    token: &CancellationToken,
) -> CancellationToken
;

/// `CancellationToken::cancel`: cancels the token for all who hold it. The
/// change is not part of the token's value, so nothing is said of it.
pub assume_specification[ CancellationToken::cancel ](token: &CancellationToken)
;

/// `CancellationToken::is_cancelled`: whether somebody cancelled the token
/// before. That depends on when it is asked, so nothing is said of the
/// result.
pub assume_specification[ CancellationToken::is_cancelled ](token: &CancellationToken) -> bool
;

} // verus!
