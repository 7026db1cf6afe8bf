//! Where a service's persisted configuration lives: the path of the
//! service's key under the system's service tree. The store itself — saving
//! and loading a typed configuration object under this path — is an external
//! collaborator and lives with the host plumbing.

use vstd::prelude::*;

verus! {

/// The path of the key that holds a service's configuration, for the service
/// of the given name.
pub fn get_service_key_path(name: &str) -> (r: String)
    ensures
        r@ == "SYSTEM\\CurrentControlSet\\Services\\"@ + name@,
{
    let mut path = String::from_str("SYSTEM\\CurrentControlSet\\Services\\");
    path.append(name);
    path
}

} // verus!
