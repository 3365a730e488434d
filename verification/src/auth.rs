//! How the registered authentication callbacks are consulted.
//!
//! The callbacks themselves are kept per thread by the caller; these
//! functions decide what an answer is when a callback is, or is not, there.

use vstd::prelude::*;

verus! {

/// The password for an authentication prompt: what the password callback
/// answers, or none when no callback is registered.
pub fn password_from_callback<F: Fn(&str, Option<&str>, &str, &str) -> Option<String>>(
    callback: Option<F>,
    prompt: &str,
    http: Option<&str>,
    method: &str,
    resource: &str,
) -> (r: Option<String>)
    requires
        callback matches Some(f) ==> call_requires(f, (prompt, http, method, resource)),
    ensures
        match callback {
            Some(f) => call_ensures(f, (prompt, http, method, resource), r),
            None => r is None,
        },
{
    match callback {
        Some(f) => f(prompt, http, method, resource),
        None => None,
    }
}

/// The client certificate for a server: what the certificate callback
/// answers, or none when no callback is registered.
pub fn client_certificate_from_callback<F: Fn(&str) -> Option<Vec<u8>>>(
    callback: Option<F>,
    server_name: &str,
) -> (r: Option<Vec<u8>>)
    requires
        callback matches Some(f) ==> call_requires(f, (server_name,)),
    ensures
        match callback {
            Some(f) => call_ensures(f, (server_name,), r),
            None => r is None,
        },
{
    match callback {
        Some(f) => f(server_name),
        None => None,
    }
}

/// Whether to accept a server's certificate: what the validation callback
/// answers; with no callback registered, every certificate is rejected.
pub fn server_certificate_verdict<F: Fn(&str, &[u8]) -> bool>(
    callback: Option<F>,
    server_name: &str,
    certificate: &[u8],
) -> (r: bool)
    requires
        callback matches Some(f) ==> call_requires(f, (server_name, certificate)),
    ensures
        match callback {
            Some(f) => call_ensures(f, (server_name, certificate), r),
            None => !r,
        },
{
    match callback {
        Some(f) => f(server_name, certificate),
        None => false,
    }
}

} // verus!
