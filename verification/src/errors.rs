//! The error taxonomy of the installer.
use vstd::prelude::*;

verus! {

/// Everything that can go wrong while resolving, downloading or
/// recording a package. `NotFound` covers an absent package, version
/// or tarball; `NetworkError` a transport failure or timeout;
/// `ParseError` a malformed manifest or configuration document;
/// `IoError` a filesystem failure.
#[derive(Clone, Copy, Debug, PartialEq, Eq, Structural)]
pub enum InstallError {
    NotFound,
    NetworkError,
    ParseError,
    IoError,
}

impl InstallError {
    /// A short human-readable description, for callers that report
    /// failures to the user.
    pub fn describe(&self) -> (r: String)
        ensures
            r@ == match self {
                InstallError::NotFound => "not found in the registry"@,
                InstallError::NetworkError => "network failure while talking to the registry"@,
                InstallError::ParseError => "malformed manifest or configuration document"@,
                InstallError::IoError => "filesystem failure"@,
            },
    {
        match self {
            InstallError::NotFound => "not found in the registry".to_owned(),
            InstallError::NetworkError => "network failure while talking to the registry".to_owned(),
            InstallError::ParseError => "malformed manifest or configuration document".to_owned(),
            InstallError::IoError => "filesystem failure".to_owned(),
        }
    }
}

} // verus!
