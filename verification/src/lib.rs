//! Helpers for optimistic-locking transactions over a redis-like key-value
//! store: a verified retry engine driven as an explicit state machine, typed
//! JSON read/write helpers, and the error taxonomy they share.
//!
//! The network client itself stays outside this crate: callers (or the
//! companion application layer) perform the watch / read / submit / unwatch
//! round trips and feed the replies to the engine in [`engine`], and hand the
//! fetched raw strings to the decoding helpers in [`converters`].

use vstd::prelude::*;

pub mod codec;
pub mod converters;
pub mod engine;
pub mod store;

use crate::converters::JsonGetError;

verus! {

/// The ways a transaction returns early: `Abort` is a caller-chosen early
/// exit carrying a payload of any type, `Serialization` is a JSON encode or
/// decode failure, and `DbError` is a store-level failure.
pub enum TxError<T> {
    Abort(T),
    Serialization(serde_json::Error),
    DbError(redis::RedisError),
}

impl<U> TxError<U> {
    /// Classifies a read-helper failure for use inside a transaction body:
    /// codec failures and store failures keep their kind, and an absent key
    /// surfaces as the store-level error the underlying client reports for it.
    pub fn from_get_error(err: JsonGetError) -> (r: Self)
        ensures
            match err {
                JsonGetError::NotFound => r is DbError,
                JsonGetError::Serialization(e) => r == TxError::<U>::Serialization(e),
                JsonGetError::DbError(e) => r == TxError::<U>::DbError(e),
            },
    {
        match err {
            JsonGetError::NotFound => TxError::DbError(crate::store::absent_key_error()),
            JsonGetError::Serialization(e) => TxError::Serialization(e),
            JsonGetError::DbError(e) => TxError::DbError(e),
        }
    }
}

impl<U> From<JsonGetError> for TxError<U> {
    fn from(err: JsonGetError) -> (r: Self) {
        TxError::from_get_error(err)
    }
}

impl<U> vstd::std_specs::convert::FromSpecImpl<JsonGetError> for TxError<U> {
    // The conversion of an absent key builds an error value no spec function
    // can produce, so `from` promises nothing here; the contract lives on
    // `from_get_error`, which `from` calls.
    open spec fn obeys_from_spec() -> bool {
        false
    }

    open spec fn from_spec(err: JsonGetError) -> Self {
        TxError::Abort(arbitrary())
    }
}

impl<U> From<redis::RedisError> for TxError<U> {
    fn from(err: redis::RedisError) -> (r: Self) {
        TxError::DbError(err)
    }
}

impl<U> vstd::std_specs::convert::FromSpecImpl<redis::RedisError> for TxError<U> {
    open spec fn obeys_from_spec() -> bool {
        true
    }

    open spec fn from_spec(err: redis::RedisError) -> Self {
        TxError::DbError(err)
    }
}

} // verus!
