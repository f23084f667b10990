//! The credential pair a client holds after a successful authentication
//! exchange (the exchange itself is out of scope here).

use vstd::prelude::*;

verus! {

/// The session/refresh credential pair. Present on a client only after
/// authentication; the session value is what an authenticated call attaches
/// as its bearer credential.
#[derive(Debug, Clone)]
pub struct AuthTokens {
    /// The bearer credential attached to every authenticated call.
    pub session: String,
    /// The credential an (out-of-scope) refresh flow exchanges for a new pair.
    pub refresh: String,
}

impl AuthTokens {
    /// A stored pair is well formed when the session credential is non-empty.
    pub open spec fn wf(&self) -> bool {
        self.session@.len() > 0
    }
}

} // verus!
