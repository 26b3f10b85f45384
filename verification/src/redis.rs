use vstd::prelude::*;

use crate::CacheError;

verus! {

#[verifier::external_type_specification]
#[verifier::external_body]
pub struct ExClient(redis::Client);

#[verifier::external_type_specification]
#[verifier::external_body]
pub struct ExRedisError(redis::RedisError);

/// Relies on redis::Client::open: it parses the address into connection
/// parameters without touching the network, returning a client on success
/// and an error exactly when the address cannot be parsed.
#[verifier::external_body]
fn client_open(url: &str) -> (r: Result<redis::Client, redis::RedisError>) {
    redis::Client::open(url)
}

/// Handle for a remote key-value backend. It owns the connection object;
/// the five contract operations themselves go over the network and live
/// with the rest of the unverified plumbing.
pub struct RedisCashier {
    client: Option<redis::Client>,
}

impl RedisCashier {
    /// Whether `connect` has succeeded on this handle: operations invoked
    /// before that must fail rather than silently do nothing.
    pub closed spec fn connected(&self) -> bool {
        self.client is Some
    }

    /// A handle with no client yet.
    pub fn new() -> (r: Self)
        ensures
            !r.connected(),
    {
        RedisCashier { client: None }
    }

    /// Parse `url` and keep the resulting client. On failure the handle is
    /// left exactly as it was, and the failure is reported, not swallowed.
    pub fn connect(&mut self, url: &str) -> (r: Result<(), CacheError>)
        ensures
            r is Ok ==> final(self).connected(),
            r is Err ==> *final(self) == *old(self) && r == Err::<(), CacheError>(
                CacheError::Backend,
            ),
    {
        match client_open(url) {
            Ok(c) => {
                self.client = Some(c);
                Ok(())
            },
            Err(_) => Err(CacheError::Backend),
        }
    }

    /// Hand the connection object to the unverified adapter that speaks the
    /// wire protocol; `None` while not connected.
    pub fn client(&self) -> (r: Option<&redis::Client>)
        ensures
            r is Some <==> self.connected(),
    {
        self.client.as_ref()
    }
}

} // verus!
