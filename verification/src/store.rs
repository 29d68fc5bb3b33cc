//! The store-side types the engine and helpers carry, and the batch of write
//! operations an attempt accumulates.
//!
//! The batch is the `redis` crate's own command pipeline, kept behind a small
//! trusted surface: two spec-level names describe what a pipeline holds (its
//! queued SET operations and its atomic flag), and each method the library
//! uses states over those names what the crate's source does.

use vstd::prelude::*;

verus! {

#[verifier::external_type_specification]
#[verifier::external_body]
pub struct ExRedisError(redis::RedisError);

#[verifier::external_type_specification]
#[verifier::external_body]
pub struct ExRedisValue(redis::Value);

#[verifier::external_type_specification]
#[verifier::external_body]
pub struct ExPipeline(redis::Pipeline);

/// The key/value pairs of the SET operations queued in a pipeline, in order.
pub uninterp spec fn pipe_ops(p: redis::Pipeline) -> Seq<(Seq<char>, Seq<char>)>;

/// Whether the pipeline is in atomic (MULTI/EXEC) mode.
pub uninterp spec fn pipe_atomic(p: redis::Pipeline) -> bool;

/// Relies on redis::pipe: a new pipeline holds no commands and is not in
/// atomic mode.
#[verifier::external_body]
fn empty_pipeline() -> (p: redis::Pipeline)
    ensures
        pipe_ops(p) == Seq::<(Seq<char>, Seq<char>)>::empty(),
        !pipe_atomic(p),
{
    redis::pipe()
}

/// Relies on redis::Pipeline::atomic: it enables MULTI/EXEC mode and leaves
/// the queued commands as they are.
#[verifier::external_body]
fn enable_atomic(p: &mut redis::Pipeline)
    ensures
        pipe_ops(*final(p)) == pipe_ops(*old(p)),
        pipe_atomic(*final(p)),
{
    p.atomic();
}

/// Relies on redis::Pipeline::set: it appends one SET command with the given
/// key and value, and does not touch the atomic flag.
#[verifier::external_body]
pub(crate) fn push_set(p: &mut redis::Pipeline, key: &str, value: &str)
    ensures
        pipe_ops(*final(p)) == pipe_ops(*old(p)).push((key@, value@)),
        pipe_atomic(*final(p)) == pipe_atomic(*old(p)),
{
    p.set(key, value);
}

/// The empty, atomic batch each attempt starts from: it is rebuilt from
/// nothing on every retry, so no operation computed against outdated reads
/// survives into the next attempt.
pub fn fresh_atomic_pipeline() -> (p: redis::Pipeline)
    ensures
        pipe_ops(p) == Seq::<(Seq<char>, Seq<char>)>::empty(),
        pipe_atomic(p),
{
    let mut p = empty_pipeline();
    enable_atomic(&mut p);
    p
}

/// Relies on redis::RedisError::from over (ErrorKind, &str): it builds a
/// client-side error value, here the one reported for a key that is absent.
#[verifier::external_body]
pub(crate) fn absent_key_error() -> (e: redis::RedisError) {
    redis::RedisError::from((redis::ErrorKind::UnexpectedReturnType, "absent key"))
}

/// Relies on redis::RedisError::from over (ErrorKind, &str): it builds the
/// client-side error reported when a transaction spends its whole retry
/// budget on rejected submissions.
#[verifier::external_body]
pub(crate) fn retry_exhausted_error() -> (e: redis::RedisError) {
    redis::RedisError::from((redis::ErrorKind::Client, "retry budget exhausted"))
}

} // verus!
