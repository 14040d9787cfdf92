//! The host a configuration is built for.
use vstd::prelude::*;

use crate::exec::opt_view;
use crate::flake::ConfigError;

verus! {

/// Relies on `hostname::get`, which asks the operating system for this
/// machine's name, and on `OsString::into_string`, which fails when that name
/// is not valid Unicode. The name depends on the machine: nothing is promised
/// of it.
#[verifier::external_body]
fn system_hostname() -> (r: Option<String>) {
    match hostname::get() {
        Ok(name) => name.into_string().ok(),
        Err(_) => None,
    }
}

/// The system host name.
pub fn get_hostname() -> (r: Result<String, ConfigError>)
    ensures
        r is Err ==> r == Err::<String, ConfigError>(ConfigError::HostnameUnavailable),
{
    match system_hostname() {
        Some(h) => Ok(h),
        None => Err(ConfigError::HostnameUnavailable),
    }
}

/// The host to build for: the one given, else the system host name.
pub fn resolve_host(given: &Option<String>) -> (r: Result<String, ConfigError>)
    ensures
        given is Some ==> (r matches Ok(h) && Some(h@) == opt_view(*given)),
        r is Err ==> given is None && r == Err::<String, ConfigError>(ConfigError::HostnameUnavailable),
{
    match given {
        Some(h) => Ok(h.clone()),
        None => get_hostname(),
    }
}

} // verus!
