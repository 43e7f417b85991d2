//! The stop signal shared by the two loops.
//!
//! The signal is a `tokio_util::sync::CancellationToken`. It lives outside
//! the verified code and other tasks may raise it at any moment, so nothing
//! is claimed about what it holds: the contracts of this crate say when the
//! signal is raised and what is done with each answer it may give.

use tokio_util::sync::CancellationToken;
use vstd::prelude::*;

verus! {

/// `tokio_util::sync::CancellationToken`, known to the verifier by name only.
#[verifier::external_type_specification]
#[verifier::external_body]
pub struct ExCancellationToken(tokio_util::sync::CancellationToken);

/// `CancellationToken::cancel`, which raises the signal. It returns no value
/// and the token is shared, so all that is claimed is that the call is
/// allowed on every token; its effect on the token is not stated.
pub assume_specification[ CancellationToken::cancel ](token: &CancellationToken);

/// `CancellationToken::is_cancelled`, which reads the signal without
/// blocking. The answer depends on what every holder of the token has done
/// so far, so nothing is claimed of it.
pub assume_specification[ CancellationToken::is_cancelled ](token: &CancellationToken) -> (raised: bool);

} // verus!
