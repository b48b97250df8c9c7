//! What a subkey of a proxy account may do.

use vstd::prelude::*;

verus! {

/// The staking actions that a subkey is allowed.
#[derive(Clone, Copy, Debug, PartialEq, Eq)]
pub struct Permissions {
    pub delegate: bool,
    pub redelegate: bool,
    pub undelegate: bool,
    pub withdraw: bool,
}

impl Default for Permissions {
    /// A subkey is allowed nothing until it is granted something.
    fn default() -> (permissions: Self)
        ensures
            permissions == (Permissions {
                delegate: false,
                redelegate: false,
                undelegate: false,
                withdraw: false,
            }),
    {
        Permissions { delegate: false, redelegate: false, undelegate: false, withdraw: false }
    }
}

/// The answer to the question whether the caller may have a message sent
/// through the proxy.
#[derive(Clone, Copy, Debug, PartialEq, Eq)]
pub struct CanSendResponse {
    pub can_send: bool,
}

} // verus!
