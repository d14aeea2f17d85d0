//! The stop signal between the two sides of an upload, a
//! `tokio_util::sync::CancellationToken`.
//!
//! A token is shared state: any holder may cancel it at any moment, so
//! nothing here says what a query will answer. The verified code around
//! these calls is proved for either answer. What is said is how two tokens
//! are tied: which token stops with which.

use tokio_util::sync::CancellationToken;
use vstd::prelude::*;

verus! {

/// `tokio_util::sync::CancellationToken`. The verifier sees none of its
/// fields.
#[verifier::external_type_specification]
#[verifier::external_body]
pub struct ExCancellationToken(CancellationToken);

/// `CancellationToken::new` makes a token that nobody else holds yet.
/// Nothing is claimed of it.
pub assume_specification[ CancellationToken::new ]() -> (token: CancellationToken)
;

/// `child` was derived from `parent`: `child` is cancelled whenever
/// `parent` is, and cancelling `child` leaves `parent` as it is.
pub uninterp spec fn is_child_of(child: CancellationToken, parent: CancellationToken) -> bool;

/// `CancellationToken::child_token` makes a token that is cancelled
/// whenever the token it was called on is cancelled, and that comes
/// cancelled if that token already is. The contract claims that the
/// result is such a child of the token, and nothing of its state.
pub assume_specification[ CancellationToken::child_token ](token: &CancellationToken) -> (child:
    CancellationToken)
    ensures
        is_child_of(child, *token),
;

/// `CancellationToken::cancel` cancels the token and its children. It
/// changes shared state only; nothing is claimed.
pub assume_specification[ CancellationToken::cancel ](token: &CancellationToken)
;

/// `CancellationToken::is_cancelled` says whether the token has been
/// cancelled. The answer depends on what other holders did; nothing is
/// claimed of it.
pub assume_specification[ CancellationToken::is_cancelled ](token: &CancellationToken) -> (cancelled:
    bool)
;

} // verus!
