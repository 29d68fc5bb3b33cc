//! The transaction retry engine, as an explicit state machine.
//!
//! One transaction is a loop of attempts: watch the keys, run the caller's
//! body against a fresh atomic batch, submit the batch, and either finish or
//! retry from scratch when the optimistic lock was violated. The machine here
//! fixes every branch of that loop; the caller performs the store round trip
//! that [`action_of`] asks for and feeds the reply back through [`step`].
//!
//! Exits mirror the underlying protocol: a caller abort and a codec failure
//! unwatch explicitly before returning (a controlled exit would otherwise
//! leave watches dangling on the connection), a committed submission
//! unwatches before returning its results, a rejected submission retries
//! without unwatching (the store clears watches itself after a failed
//! commit), and a store error ends the run at once.
//!
//! The plain machine enforces no retry cap: under unbroken contention it
//! asks for watch after watch indefinitely, like the loop it implements. A
//! driver that wants a bound steps the machine through [`step_bounded`] with
//! a [`RetryPolicy`]: a rejected submission with no retry left then ends the
//! run as a store-level failure instead of watching again.

use vstd::prelude::*;

use crate::TxError;

verus! {

/// The ordered, non-empty set of keys one transaction watches. The same set
/// protects every attempt of the loop; the store's unwatch then clears them
/// all at once.
pub struct WatchSet {
    keys: Vec<String>,
}

impl View for WatchSet {
    type V = Seq<Seq<char>>;

    /// The watched keys, as character sequences, in order.
    closed spec fn view(&self) -> Seq<Seq<char>> {
        self.keys@.map_values(|k: String| k@)
    }
}

impl WatchSet {
    /// Builds a watch set, refusing an empty one: watching no key would make
    /// the optimistic lock vacuous, so no attempt may start without one.
    pub fn new(keys: Vec<String>) -> (r: Option<WatchSet>)
        ensures
            match r {
                Some(w) => w@.len() > 0 && w@ == keys@.map_values(|k: String| k@),
                None => keys@.len() == 0,
            },
    {
        if keys.len() == 0 {
            None
        } else {
            Some(WatchSet { keys })
        }
    }

    /// The keys to hand to the store's watch command, in order.
    pub fn keys(&self) -> (r: &Vec<String>)
        ensures
            r@.map_values(|k: String| k@) == self@,
            r@.len() == self@.len(),
    {
        &self.keys
    }
}

/// The outcome an attempt has earned once its final unwatch completes.
pub enum TxPending<A> {
    /// The submission was accepted; these are its results.
    Committed(redis::Value),
    /// The body chose to abort with this payload.
    Aborted(A),
    /// The body stopped on a JSON encode or decode failure.
    Serialization(serde_json::Error),
}

/// Where the engine stands between two store round trips.
pub enum TxState<A> {
    /// The next step is to watch the keys.
    Watching,
    /// The watch is established; the next step is to run the body against a
    /// fresh atomic batch.
    RunningBody,
    /// The body proceeded; the next step is to submit its batch.
    Submitting,
    /// The attempt is decided; the next step is to unwatch, then return.
    Unwatching(TxPending<A>),
    /// The transaction is over with this outcome.
    Done(Result<redis::Value, TxError<A>>),
}

/// A store reply or a body result, fed to [`step`].
pub enum TxEvent<A> {
    WatchOk,
    WatchFailed(redis::RedisError),
    /// The body appended its operations to the batch and wants it submitted.
    BodyProceed,
    /// The body cancels this and all further attempts with a payload.
    BodyAbort(A),
    /// The body stopped on a JSON encode or decode failure.
    BodySerialization(serde_json::Error),
    /// The body observed a store-level error while reading.
    BodyDbError(redis::RedisError),
    /// The atomic submission was accepted, with its results.
    SubmitCommitted(redis::Value),
    /// A watched key changed since the watch: the optimistic lock rejected
    /// the submission.
    SubmitRejected,
    SubmitFailed(redis::RedisError),
    UnwatchOk,
    UnwatchFailed(redis::RedisError),
}

/// What the caller must do next to move the engine along.
#[derive(Clone, Copy, Debug, PartialEq, Eq, Structural)]
pub enum TxAction {
    IssueWatch,
    RunBody,
    SubmitBatch,
    IssueUnwatch,
    Finished,
}

/// The outcome a decided attempt returns once its unwatch went through.
pub open spec fn resolve_pending<A>(p: TxPending<A>) -> Result<redis::Value, TxError<A>> {
    match p {
        TxPending::Committed(v) => Ok(v),
        TxPending::Aborted(a) => Err(TxError::Abort(a)),
        TxPending::Serialization(e) => Err(TxError::Serialization(e)),
    }
}

/// The transition relation of the engine: every exit path of the loop is one
/// arm here. A reply that does not answer the pending request leaves the
/// machine where it stands.
pub open spec fn tx_transition<A>(s: TxState<A>, e: TxEvent<A>) -> TxState<A> {
    match (s, e) {
        (TxState::Watching, TxEvent::WatchOk) => TxState::RunningBody,
        (TxState::Watching, TxEvent::WatchFailed(err)) => TxState::Done(
            Err(TxError::DbError(err)),
        ),
        (TxState::RunningBody, TxEvent::BodyProceed) => TxState::Submitting,
        (TxState::RunningBody, TxEvent::BodyAbort(a)) => TxState::Unwatching(
            TxPending::Aborted(a),
        ),
        (TxState::RunningBody, TxEvent::BodySerialization(err)) => TxState::Unwatching(
            TxPending::Serialization(err),
        ),
        (TxState::RunningBody, TxEvent::BodyDbError(err)) => TxState::Done(
            Err(TxError::DbError(err)),
        ),
        (TxState::Submitting, TxEvent::SubmitCommitted(v)) => TxState::Unwatching(
            TxPending::Committed(v),
        ),
        (TxState::Submitting, TxEvent::SubmitRejected) => TxState::Watching,
        (TxState::Submitting, TxEvent::SubmitFailed(err)) => TxState::Done(
            Err(TxError::DbError(err)),
        ),
        (TxState::Unwatching(p), TxEvent::UnwatchOk) => TxState::Done(resolve_pending(p)),
        (TxState::Unwatching(_), TxEvent::UnwatchFailed(err)) => TxState::Done(
            Err(TxError::DbError(err)),
        ),
        (other, _) => other,
    }
}

/// The store round trip (or body run) that each state waits on.
pub open spec fn action_of<A>(s: TxState<A>) -> TxAction {
    match s {
        TxState::Watching => TxAction::IssueWatch,
        TxState::RunningBody => TxAction::RunBody,
        TxState::Submitting => TxAction::SubmitBatch,
        TxState::Unwatching(_) => TxAction::IssueUnwatch,
        TxState::Done(_) => TxAction::Finished,
    }
}

/// Moves the engine one reply forward, exactly along [`tx_transition`].
pub fn step<A>(s: TxState<A>, e: TxEvent<A>) -> (r: TxState<A>)
    ensures
        r == tx_transition(s, e),
{
    match (s, e) {
        (TxState::Watching, TxEvent::WatchOk) => TxState::RunningBody,
        (TxState::Watching, TxEvent::WatchFailed(err)) => TxState::Done(
            Err(TxError::DbError(err)),
        ),
        (TxState::RunningBody, TxEvent::BodyProceed) => TxState::Submitting,
        (TxState::RunningBody, TxEvent::BodyAbort(a)) => TxState::Unwatching(
            TxPending::Aborted(a),
        ),
        (TxState::RunningBody, TxEvent::BodySerialization(err)) => TxState::Unwatching(
            TxPending::Serialization(err),
        ),
        (TxState::RunningBody, TxEvent::BodyDbError(err)) => TxState::Done(
            Err(TxError::DbError(err)),
        ),
        (TxState::Submitting, TxEvent::SubmitCommitted(v)) => TxState::Unwatching(
            TxPending::Committed(v),
        ),
        (TxState::Submitting, TxEvent::SubmitRejected) => TxState::Watching,
        (TxState::Submitting, TxEvent::SubmitFailed(err)) => TxState::Done(
            Err(TxError::DbError(err)),
        ),
        (TxState::Unwatching(p), TxEvent::UnwatchOk) => {
            let outcome = match p {
                TxPending::Committed(v) => Ok(v),
                TxPending::Aborted(a) => Err(TxError::Abort(a)),
                TxPending::Serialization(e) => Err(TxError::Serialization(e)),
            };
            TxState::Done(outcome)
        },
        (TxState::Unwatching(_), TxEvent::UnwatchFailed(err)) => TxState::Done(
            Err(TxError::DbError(err)),
        ),
        (other, _) => other,
    }
}

/// The store round trip (or body run) the engine waits on in this state.
pub fn next_action<A>(s: &TxState<A>) -> (r: TxAction)
    ensures
        r == action_of(*s),
{
    match s {
        TxState::Watching => TxAction::IssueWatch,
        TxState::RunningBody => TxAction::RunBody,
        TxState::Submitting => TxAction::SubmitBatch,
        TxState::Unwatching(_) => TxAction::IssueUnwatch,
        TxState::Done(_) => TxAction::Finished,
    }
}

/// How many lock-violation retries a driver may still spend. `None` is the
/// unbounded default behaviour of the plain engine; `Some(n)` allows the
/// loop to re-enter the watch step after at most `n` rejected submissions.
pub struct RetryPolicy {
    remaining: Option<u64>,
}

impl RetryPolicy {
    /// The retries still allowed, or nothing for an unbounded policy.
    pub closed spec fn budget(&self) -> Option<u64> {
        self.remaining
    }

    /// The default: retry for as long as the contention lasts.
    pub fn unbounded() -> (r: Self)
        ensures
            r.budget() is None,
    {
        RetryPolicy { remaining: None }
    }

    /// At most `retries` re-entries of the loop after rejected submissions.
    pub fn capped(retries: u64) -> (r: Self)
        ensures
            r.budget() == Some(retries),
    {
        RetryPolicy { remaining: Some(retries) }
    }
}

/// Moves the engine one reply forward like [`step`], spending the retry
/// budget: a submission rejected when no retry is left ends the run as a
/// store-level failure instead of watching again. With an unbounded policy
/// this is exactly [`step`].
pub fn step_bounded<A>(s: TxState<A>, e: TxEvent<A>, policy: &mut RetryPolicy) -> (r: TxState<A>)
    ensures
        s is Submitting && e is SubmitRejected ==> match old(policy).budget() {
            None => r == tx_transition(s, e) && final(policy).budget() is None,
            Some(n) => if n > 0 {
                r == tx_transition(s, e) && final(policy).budget() == Some((n - 1) as u64)
            } else {
                (r matches TxState::Done(Err(TxError::DbError(_)))) && final(policy).budget()
                    == Some(0u64)
            },
        },
        !(s is Submitting && e is SubmitRejected) ==> r == tx_transition(s, e)
            && final(policy).budget() == old(policy).budget(),
{
    let retrying = match (&s, &e) {
        (TxState::Submitting, TxEvent::SubmitRejected) => true,
        _ => false,
    };
    if retrying {
        match policy.remaining {
            None => step(s, e),
            Some(n) => {
                if n > 0 {
                    policy.remaining = Some(n - 1);
                    step(s, e)
                } else {
                    TxState::Done(Err(TxError::DbError(crate::store::retry_exhausted_error())))
                }
            },
        }
    } else {
        step(s, e)
    }
}

/// The state after a whole sequence of replies.
pub open spec fn run_steps<A>(s: TxState<A>, events: Seq<TxEvent<A>>) -> TxState<A>
    decreases events.len(),
{
    if events.len() == 0 {
        s
    } else {
        run_steps(tx_transition(s, events[0]), events.skip(1))
    }
}

/// Whether this event is the result of one body run.
pub open spec fn is_body_event<A>(e: TxEvent<A>) -> bool {
    ||| e is BodyProceed
    ||| e is BodyAbort
    ||| e is BodySerialization
    ||| e is BodyDbError
}

/// How many times the body ran along a sequence of replies: the count of
/// body results the machine consumed while waiting on one.
pub open spec fn body_runs<A>(s: TxState<A>, events: Seq<TxEvent<A>>) -> nat
    decreases events.len(),
{
    if events.len() == 0 {
        0
    } else {
        (if s is RunningBody && is_body_event(events[0]) {
            1nat
        } else {
            0nat
        }) + body_runs(tx_transition(s, events[0]), events.skip(1))
    }
}

/// An undisturbed attempt commits at once: when the watch succeeds, the body
/// proceeds, and no concurrent writer touched the watched keys (so the
/// submission is accepted), the engine unwatches and completes with the
/// committed results — the body having run exactly once.
pub proof fn lemma_uncontended_first_attempt<A>(v: redis::Value)
    ensures
        ({
            let events = seq![
                TxEvent::<A>::WatchOk,
                TxEvent::<A>::BodyProceed,
                TxEvent::<A>::SubmitCommitted(v),
                TxEvent::<A>::UnwatchOk,
            ];
            &&& run_steps(TxState::<A>::Watching, events) == TxState::<A>::Done(
                Ok::<redis::Value, TxError<A>>(v),
            )
            &&& body_runs(TxState::<A>::Watching, events) == 1
        }),
{
    let events = seq![
        TxEvent::<A>::WatchOk,
        TxEvent::<A>::BodyProceed,
        TxEvent::<A>::SubmitCommitted(v),
        TxEvent::<A>::UnwatchOk,
    ];
    let t1 = seq![
        TxEvent::<A>::BodyProceed,
        TxEvent::<A>::SubmitCommitted(v),
        TxEvent::<A>::UnwatchOk,
    ];
    let t2 = seq![TxEvent::<A>::SubmitCommitted(v), TxEvent::<A>::UnwatchOk];
    let t3 = seq![TxEvent::<A>::UnwatchOk];
    let t4 = Seq::<TxEvent<A>>::empty();
    assert(events.skip(1) =~= t1);
    assert(t1.skip(1) =~= t2);
    assert(t2.skip(1) =~= t3);
    assert(t3.skip(1) =~= t4);
    assert(run_steps(TxState::<A>::Watching, events) == run_steps(TxState::<A>::RunningBody, t1));
    assert(run_steps(TxState::<A>::RunningBody, t1) == run_steps(TxState::<A>::Submitting, t2));
    assert(run_steps(TxState::<A>::Submitting, t2) == run_steps(
        TxState::<A>::Unwatching(TxPending::Committed(v)),
        t3,
    ));
    assert(run_steps(TxState::<A>::Unwatching(TxPending::Committed(v)), t3) == run_steps(
        TxState::<A>::Done(Ok::<redis::Value, TxError<A>>(v)),
        t4,
    ));
    assert(run_steps(TxState::<A>::Done(Ok::<redis::Value, TxError<A>>(v)), t4)
        == TxState::<A>::Done(Ok::<redis::Value, TxError<A>>(v)));
    assert(body_runs(TxState::<A>::Watching, events) == body_runs(TxState::<A>::RunningBody, t1));
    assert(body_runs(TxState::<A>::RunningBody, t1) == 1 + body_runs(TxState::<A>::Submitting, t2));
    assert(body_runs(TxState::<A>::Submitting, t2) == body_runs(
        TxState::<A>::Unwatching(TxPending::Committed(v)),
        t3,
    ));
    assert(body_runs(TxState::<A>::Unwatching(TxPending::Committed(v)), t3) == body_runs(
        TxState::<A>::Done(Ok::<redis::Value, TxError<A>>(v)),
        t4,
    ));
    assert(body_runs(TxState::<A>::Done(Ok::<redis::Value, TxError<A>>(v)), t4) == 0);
}

/// A lock violation is the one recoverable event: a rejected submission
/// surfaces no outcome but sends the engine back to the watch step, the body
/// runs again against fresh reads, and once the contention stops the next
/// attempt commits.
pub proof fn lemma_retry_after_contention<A>(v: redis::Value)
    ensures
        tx_transition(TxState::<A>::Submitting, TxEvent::<A>::SubmitRejected)
            == TxState::<A>::Watching,
        ({
            let events = seq![
                TxEvent::<A>::WatchOk,
                TxEvent::<A>::BodyProceed,
                TxEvent::<A>::SubmitRejected,
                TxEvent::<A>::WatchOk,
                TxEvent::<A>::BodyProceed,
                TxEvent::<A>::SubmitCommitted(v),
                TxEvent::<A>::UnwatchOk,
            ];
            &&& run_steps(TxState::<A>::Watching, events) == TxState::<A>::Done(
                Ok::<redis::Value, TxError<A>>(v),
            )
            &&& body_runs(TxState::<A>::Watching, events) == 2
        }),
{
    let events = seq![
        TxEvent::<A>::WatchOk,
        TxEvent::<A>::BodyProceed,
        TxEvent::<A>::SubmitRejected,
        TxEvent::<A>::WatchOk,
        TxEvent::<A>::BodyProceed,
        TxEvent::<A>::SubmitCommitted(v),
        TxEvent::<A>::UnwatchOk,
    ];
    let t1 = seq![
        TxEvent::<A>::BodyProceed,
        TxEvent::<A>::SubmitRejected,
        TxEvent::<A>::WatchOk,
        TxEvent::<A>::BodyProceed,
        TxEvent::<A>::SubmitCommitted(v),
        TxEvent::<A>::UnwatchOk,
    ];
    let t2 = seq![
        TxEvent::<A>::SubmitRejected,
        TxEvent::<A>::WatchOk,
        TxEvent::<A>::BodyProceed,
        TxEvent::<A>::SubmitCommitted(v),
        TxEvent::<A>::UnwatchOk,
    ];
    let t3 = seq![
        TxEvent::<A>::WatchOk,
        TxEvent::<A>::BodyProceed,
        TxEvent::<A>::SubmitCommitted(v),
        TxEvent::<A>::UnwatchOk,
    ];
    assert(events.skip(1) =~= t1);
    assert(t1.skip(1) =~= t2);
    assert(t2.skip(1) =~= t3);
    assert(run_steps(TxState::<A>::Watching, events) == run_steps(TxState::<A>::RunningBody, t1));
    assert(run_steps(TxState::<A>::RunningBody, t1) == run_steps(TxState::<A>::Submitting, t2));
    assert(run_steps(TxState::<A>::Submitting, t2) == run_steps(TxState::<A>::Watching, t3));
    assert(body_runs(TxState::<A>::Watching, events) == body_runs(TxState::<A>::RunningBody, t1));
    assert(body_runs(TxState::<A>::RunningBody, t1) == 1 + body_runs(TxState::<A>::Submitting, t2));
    assert(body_runs(TxState::<A>::Submitting, t2) == body_runs(TxState::<A>::Watching, t3));
    lemma_uncontended_first_attempt::<A>(v);
}

/// An abort is a controlled exit: it moves the engine to the unwatch step —
/// never straight to an outcome — carrying the exact payload, and the
/// completed unwatch ends the run with that payload.
pub proof fn lemma_abort_unwatches_then_returns<A>(payload: A)
    ensures
        tx_transition(TxState::<A>::RunningBody, TxEvent::<A>::BodyAbort(payload))
            == TxState::<A>::Unwatching(TxPending::Aborted(payload)),
        action_of(TxState::<A>::Unwatching(TxPending::Aborted(payload)))
            == TxAction::IssueUnwatch,
        tx_transition(
            TxState::<A>::Unwatching(TxPending::Aborted(payload)),
            TxEvent::<A>::UnwatchOk,
        ) == TxState::<A>::Done(Err::<redis::Value, TxError<A>>(TxError::Abort(payload))),
{
}

/// The states an aborting transaction can still pass through: the pending
/// unwatch, the abort outcome with its exact payload, or the store failure
/// that interrupted the final unwatch.
pub open spec fn abort_settled<A>(s: TxState<A>, payload: A) -> bool {
    ||| s == TxState::<A>::Unwatching(TxPending::Aborted(payload))
    ||| (s matches TxState::Done(Err(e)) && (e == TxError::<A>::Abort(payload) || e is DbError))
}

proof fn lemma_abort_settled_run<A>(s: TxState<A>, payload: A, events: Seq<TxEvent<A>>)
    requires
        abort_settled(s, payload),
    ensures
        abort_settled(run_steps(s, events), payload),
        body_runs(s, events) == 0,
    decreases events.len(),
{
    if events.len() > 0 {
        let s2 = tx_transition(s, events[0]);
        assert(abort_settled(s2, payload));
        lemma_abort_settled_run(s2, payload, events.skip(1));
    }
}

/// An abort is never retried: once the body has aborted, no sequence of
/// store replies runs the body again, re-enters the loop, or completes the
/// transaction. Every outcome still reachable is the abort with the exact
/// payload supplied, or the store failure that interrupted the final
/// unwatch.
pub proof fn lemma_abort_never_retried<A>(payload: A, events: Seq<TxEvent<A>>)
    ensures
        ({
            let start = TxState::<A>::Unwatching(TxPending::Aborted(payload));
            let fin = run_steps(start, events);
            &&& body_runs(start, events) == 0
            &&& !(fin matches TxState::Done(Ok(_)))
            &&& (fin matches TxState::Done(Err(e)) ==> e == TxError::<A>::Abort(payload) || e
                is DbError)
            &&& !(fin is Watching)
            &&& !(fin is RunningBody)
            &&& !(fin is Submitting)
        }),
{
    let start = TxState::<A>::Unwatching(TxPending::Aborted(payload));
    lemma_abort_settled_run(start, payload, events);
}

} // verus!
