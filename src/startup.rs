use vstd::prelude::*;

verus! {

/// Why the process cannot begin serving commands.
#[derive(Debug, Clone, Copy, PartialEq, Eq, Structural)]
pub enum StartupError {
    /// The gateway credential was not supplied.
    MissingCredential,
}

/// Decides from the configured credential, if any, whether serving may begin:
/// a supplied credential is handed on unchanged, an absent one stops startup.
pub fn require_credential(value: Option<String>) -> (r: Result<String, StartupError>)
    ensures
        value is None <==> r == Err::<String, StartupError>(StartupError::MissingCredential),
        value is Some <==> r is Ok,
        r is Ok ==> value is Some && r->Ok_0@ == value->Some_0@,
{
    match value {
        Some(token) => Ok(token),
        None => Err(StartupError::MissingCredential),
    }
}

} // verus!
