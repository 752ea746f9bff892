//! The ways in which a synchronisation attempt can fail.

use vstd::prelude::*;

verus! {

/// Why no bearer token could be had from the issuer.
#[derive(Clone, Copy, Debug, PartialEq, Eq, Structural)]
pub enum AuthError {
    /// The user is not signed in.
    NotSignedIn,
    /// The issuer could not be reached.
    Network,
}

/// What can go wrong between binding the listener and receiving the callback.
#[derive(Clone, Copy, Debug, PartialEq, Eq, Structural)]
pub enum SyncError {
    /// The wait budget ran out before a valid callback arrived.
    Timeout,
    /// A request's target could not be read as a URL. Such a request is
    /// passed over and the wait goes on.
    ParseFailure,
    /// The page that closes the flow could not be written back to the
    /// browser. The context that the request carried is kept all the same.
    RespondFailure,
}

/// Why a synchronisation attempt ended without a context.
#[derive(Clone, Copy, Debug, PartialEq, Eq, Structural)]
pub enum SyncFailure {
    /// No token was issued.
    Auth(AuthError),
    /// The listener could not be bound, so that there was no port to hand
    /// over.
    Bind,
    /// The callback never came.
    Sync(SyncError),
}

} // verus!
