//! Where the replies to commands go.

use vstd::prelude::*;

verus! {

/// The entry points of the response sink, one for each kind of reply.
#[derive(PartialEq, Eq, Clone, Copy, Debug, Structural)]
pub enum ResponseKind {
    SessionCreated,
    Prompted,
    Authenticated,
    ConfigOptionSet,
    ModeSet,
    SessionLoaded,
    SessionsListed,
    SessionForked,
    SessionResumed,
    SessionModelSet,
    CustomCommandExecuted,
}

} // verus!
