use vstd::prelude::*;

verus! {

/// Stage of a control-channel handshake.
#[derive(Debug, Clone, Copy, PartialEq, Eq, Structural)]
pub enum SessionSaturate {
    /// Connection accepted; waiting for the client's key share.
    Init,
    /// Key agreed; waiting for the client's sealed credentials.
    WaitApprove,
    /// Session registered; only keepalives are expected.
    Success,
}

} // verus!
