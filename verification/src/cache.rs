//! The handle of the optional key-value mirror of the current event.

use vstd::prelude::*;

verus! {

/// The Redis client handle; nothing inside it is visible to proofs.
#[verifier::external_type_specification]
#[verifier::external_body]
pub struct ExClient(::redis::Client);

/// The error type of the Redis crate; nothing inside it is visible to proofs.
#[verifier::external_type_specification]
#[verifier::external_body]
pub struct ExRedisError(::redis::RedisError);

/// Whether `redis::Client::open` takes `url` as the address of a server.
pub uninterp spec fn redis_url_accepted(url: Seq<char>) -> bool;

/// Calls `redis::Client::open`, which reads the address and opens no
/// connection. The contract claims only that whether the call succeeds
/// depends on the text of the address alone.
#[verifier::external_body]
fn open_client(url: &str) -> (r: Result<::redis::Client, ::redis::RedisError>)
    ensures
        r.is_ok() == redis_url_accepted(url@),
{
    ::redis::Client::open(url)
}

/// A handle to the key-value server that mirrors the current event.
pub struct RedisStore {
    url: String,
    client: ::redis::Client,
}

impl RedisStore {
    /// The address this handle was made for.
    pub closed spec fn address(&self) -> Seq<char> {
        self.url@
    }

    /// A handle for the server at `url`, which must be an address that the
    /// client takes; `connect` is for an address that may be anything.
    pub fn new(url: &str) -> (store: Self)
        requires
            redis_url_accepted(url@),
        ensures
            store.address() == url@,
    {
        match open_client(url) {
            Ok(client) => RedisStore { url: url.to_owned(), client },
            Err(_) => vstd::pervasive::unreached(),
        }
    }

    /// A handle for the server at `url`, or nothing where the address is not
    /// one that the client takes.
    pub fn connect(url: &str) -> (store: Option<Self>)
        ensures
            store.is_some() == redis_url_accepted(url@),
            store.is_some() ==> store.unwrap().address() == url@,
    {
        match open_client(url) {
            Ok(_) => Some(Self::new(url)),
            Err(_) => None,
        }
    }

    /// The address this handle was made for.
    pub fn url(&self) -> (url: &str)
        ensures
            url@ == self.address(),
    {
        self.url.as_str()
    }

    /// The key under which the current event is mirrored; while the key is
    /// absent, nothing is playing.
    pub fn key() -> (key: &'static str)
        ensures
            key@ == "lastfm:nowplaying"@,
    {
        "lastfm:nowplaying"
    }

    /// The client to open connections with.
    pub fn client(&self) -> (client: &::redis::Client)
        ensures
            *client == self.opened(),
    {
        &self.client
    }

    /// The client that was opened for the address when this handle was made.
    /// It stays the same for as long as the handle lives.
    pub closed spec fn opened(&self) -> ::redis::Client {
        self.client
    }
}

} // verus!
