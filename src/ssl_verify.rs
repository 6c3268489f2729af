//! Whether TLS certificates are verified (reserved: not yet applied to
//! clients).

use vstd::prelude::*;

verus! {

/// A certificate-verification setting.
#[derive(Clone, Copy, Debug, PartialEq, Eq, Structural)]
pub struct SslVerify(pub bool);

impl SslVerify {
    pub fn new(verify: bool) -> (r: Self)
        ensures
            r.0 == verify,
    {
        SslVerify(verify)
    }

    /// Whether certificates are verified.
    pub fn get(&self) -> (r: bool)
        ensures
            r == self.0,
    {
        self.0
    }
}

} // verus!
