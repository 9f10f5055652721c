use vstd::prelude::*;

verus! {

/// An access credential bound to one authorization path: the opaque secret
/// handed back by the credential collaborator, and when it stops being valid
/// (seconds since the Unix epoch). The core caches these per path and never
/// refreshes one on its own.
#[derive(Clone, Debug)]
pub struct AccessToken {
    /// The opaque token secret.
    pub secret: String,
    /// Expiry as seconds since the Unix epoch.
    pub expires_on: i64,
}

impl AccessToken {
    pub fn new(secret: String, expires_on: i64) -> (r: AccessToken)
        ensures
            r.secret == secret,
            r.expires_on == expires_on,
    {
        AccessToken { secret, expires_on }
    }

    /// An owned copy equal to this token.
    pub fn duplicate(&self) -> (r: AccessToken)
        ensures
            r == *self,
    {
        AccessToken { secret: self.secret.clone(), expires_on: self.expires_on }
    }
}

} // verus!
