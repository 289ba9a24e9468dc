//! A thin client for the key/value store that holds user profiles. One shared
//! connection handle sits behind a lock; each operation holds the lock for
//! exactly one request and its response. There is no cache and no retry: a
//! failure is handed straight back to the caller.

use std::sync::{Arc, Mutex};

use redis::{Client, RedisError};
use vstd::prelude::*;

use crate::profile::{profile_record, UserData};

verus! {

#[verifier::external_type_specification]
#[verifier::external_body]
pub struct ExClient(redis::Client);

#[verifier::external_type_specification]
#[verifier::external_body]
pub struct ExRedisError(redis::RedisError);

#[verifier::external_type_specification]
#[verifier::external_body]
#[verifier::reject_recursive_types(T)]
pub struct ExMutex<T: ?Sized>(std::sync::Mutex<T>);

/// Relies on `Mutex::new`: an unlocked mutex around the value.
pub assume_specification<T>[ std::sync::Mutex::<T>::new ](t: T) -> std::sync::Mutex<T>;

/// Why a store operation failed.
#[derive(Clone, Copy, Debug, PartialEq, Eq, Structural)]
pub enum StoreError {
    /// The connection URI was not accepted.
    InvalidUri,
    /// No connection to the store could be made, or a read failed.
    ConnectionUnavailable,
    /// The store refused a write.
    RemoteRejected,
    /// No value is stored under the key.
    NotFound,
}

/// Whether `redis::Client::open` accepts a connection URI. It only parses
/// the URI, so the answer depends on the URI's characters alone.
pub uninterp spec fn redis_uri_accepted(uri: Seq<char>) -> bool;

/// Relies on `redis::Client::open`: parses the URI into a client handle
/// without connecting.
#[verifier::external_body]
fn open_client(uri: &str) -> (r: Result<Client, RedisError>)
    ensures
        r is Ok <==> redis_uri_accepted(uri@),
{
    Client::open(uri)
}

/// Relies on `Mutex::lock`, `redis::Client::get_connection` and the `SET`
/// command of `redis::Commands::set`, in that order, with the lock held
/// throughout. The outer error is a failure to connect, the inner result the
/// store's answer to the write.
#[verifier::external_body]
fn exchange_set(conn: &Mutex<Client>, key: &str, value: &str) -> (r: Result<
    Result<(), RedisError>,
    RedisError,
>) {
    let client = match conn.lock() {
        Ok(g) => g,
        Err(poisoned) => poisoned.into_inner(),
    };
    match client.get_connection() {
        Ok(mut c) => Ok(redis::Commands::set::<&str, &str, ()>(&mut c, key, value)),
        Err(e) => Err(e),
    }
}

/// Relies on `Mutex::lock`, `redis::Client::get_connection` and the `GET`
/// command of `redis::Commands::get`, in that order, with the lock held
/// throughout. The inner result is `None` where nothing is stored under the
/// key.
#[verifier::external_body]
fn exchange_get(conn: &Mutex<Client>, key: &str) -> (r: Result<
    Result<Option<String>, RedisError>,
    RedisError,
>) {
    let client = match conn.lock() {
        Ok(g) => g,
        Err(poisoned) => poisoned.into_inner(),
    };
    match client.get_connection() {
        Ok(mut c) => Ok(redis::Commands::get::<&str, Option<String>>(&mut c, key)),
        Err(e) => Err(e),
    }
}

/// The outcome of a write: a failure to connect and a refused write are told
/// apart.
pub fn put_outcome(o: Result<Result<(), RedisError>, RedisError>) -> (r: Result<(), StoreError>)
    ensures
        o is Err <==> r == Err::<(), _>(StoreError::ConnectionUnavailable),
        o matches Ok(w) ==> (w is Err <==> r == Err::<(), _>(StoreError::RemoteRejected)),
        o matches Ok(w) ==> (w is Ok <==> r is Ok),
{
    match o {
        Err(_) => Err(StoreError::ConnectionUnavailable),
        Ok(Err(_)) => Err(StoreError::RemoteRejected),
        Ok(Ok(())) => Ok(()),
    }
}

/// The outcome of a read: a missing value is told apart from every other
/// failure.
pub fn get_outcome(o: Result<Result<Option<String>, RedisError>, RedisError>) -> (r: Result<
    String,
    StoreError,
>)
    ensures
        o is Err ==> r == Err::<String, _>(StoreError::ConnectionUnavailable),
        o matches Ok(w) ==> (w is Err ==> r == Err::<String, _>(StoreError::ConnectionUnavailable)),
        o matches Ok(w) ==> (w matches Ok(v) ==> (v is None <==> r == Err::<String, _>(
            StoreError::NotFound,
        ))),
        o matches Ok(w) ==> (w matches Ok(v) ==> (v matches Some(s) ==> (r matches Ok(t) && t@
            == s@))),
{
    match o {
        Err(_) => Err(StoreError::ConnectionUnavailable),
        Ok(Err(_)) => Err(StoreError::ConnectionUnavailable),
        Ok(Ok(None)) => Err(StoreError::NotFound),
        Ok(Ok(Some(s))) => Ok(s),
    }
}

/// A client of the profile store.
pub struct RedisClient {
    pub connection: Arc<Mutex<Client>>,
}

impl RedisClient {
    /// A client for the store at `uri`. The URI is checked here; no
    /// connection is made until the first operation.
    pub fn new(uri: &str) -> (r: Result<RedisClient, StoreError>)
        ensures
            r is Ok <==> redis_uri_accepted(uri@),
            r matches Err(e) ==> e == StoreError::InvalidUri,
    {
        match open_client(uri) {
            Ok(client) => Ok(RedisClient { connection: Arc::new(Mutex::new(client)) }),
            Err(_) => Err(StoreError::InvalidUri),
        }
    }

    /// Stores `value` under `key`.
    pub fn set(&self, key: &str, value: &str) -> (r: Result<(), StoreError>)
        ensures
            r matches Err(e) ==> (e == StoreError::ConnectionUnavailable || e
                == StoreError::RemoteRejected),
    {
        put_outcome(exchange_set(&*self.connection, key, value))
    }

    /// The value stored under `key`.
    pub fn get(&self, key: &str) -> (r: Result<String, StoreError>)
        ensures
            r matches Err(e) ==> (e == StoreError::ConnectionUnavailable || e
                == StoreError::NotFound),
    {
        get_outcome(exchange_get(&*self.connection, key))
    }

    /// Stores a user's profile as JSON under the user's identifier in
    /// decimal: `set` with the key and value of `profile_record`.
    pub fn save_profile(&self, u: &UserData) -> (r: Result<(), StoreError>)
        ensures
            r matches Err(e) ==> (e == StoreError::ConnectionUnavailable || e
                == StoreError::RemoteRejected),
    {
        let (key, value) = profile_record(u);
        self.set(key.as_str(), value.as_str())
    }
}

} // verus!
