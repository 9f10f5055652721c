use vstd::prelude::*;

verus! {

/// The failure classes this library reports from its own checks.
///
/// Transport-level failures (a connection open, session begin, link attach or
/// send that the service rejected) never reach these variants: the driver that
/// performs the network work keeps its own error and simply does not report
/// success back to the client, so no cache entry is made for the failed step.
#[derive(Clone, Copy, Debug, PartialEq, Eq, Structural)]
pub enum ErrorKind {
    /// An operation needs an open connection and none exists (never opened,
    /// a failed open, or the client was closed).
    MissingConnection,
    /// A property query ran before the management link was attached.
    MissingManagementLink,
    /// A send was requested for a destination with no attached sender link.
    MissingSenderLink,
    /// Token acquisition or the claims handshake failed, a duplicate token
    /// insertion raced, or a link attach was reported for a destination that
    /// was never authorized.
    AuthorizationFailed,
    /// The connection endpoint is not a well-formed URL.
    InvalidUrl,
}

impl ErrorKind {
    /// A short description, since the library's types carry no `Display`.
    pub fn message(&self) -> (r: &'static str)
        ensures
            *self is MissingConnection ==> r@ == "missing connection"@,
            *self is MissingManagementLink ==> r@ == "missing management link"@,
            *self is MissingSenderLink ==> r@ == "missing sender link"@,
            *self is AuthorizationFailed ==> r@ == "authorization failed"@,
            *self is InvalidUrl ==> r@ == "invalid endpoint url"@,
    {
        match self {
            ErrorKind::MissingConnection => "missing connection",
            ErrorKind::MissingManagementLink => "missing management link",
            ErrorKind::MissingSenderLink => "missing sender link",
            ErrorKind::AuthorizationFailed => "authorization failed",
            ErrorKind::InvalidUrl => "invalid endpoint url",
        }
    }
}

} // verus!
