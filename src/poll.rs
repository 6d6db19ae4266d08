use vstd::prelude::*;
use crate::error::{Error, ErrorStatus};

verus! {

/// The pause between two attempts, in milliseconds.
pub const RETRY_INTERVAL_MS: u64 = 100;

/// What a poller does after an attempt.
#[derive(Debug)]
pub enum Poll<T> {
    /// Stop, with this outcome.
    Done(Result<T, Error>),
    /// Sleep this many milliseconds, then try again.
    Wait(u64),
}

/// The outcome is a failure with the awaited status.
pub open spec fn is_awaited<T>(outcome: Result<T, Error>, awaited: ErrorStatus) -> bool {
    match outcome {
        Err(Error::WebDriver(es, _)) => es == awaited,
        _ => false,
    }
}

/// What to do after an attempt that came out as `outcome`, while waiting
/// out failures with status `awaited`.
pub open spec fn poll_decision<T>(outcome: Result<T, Error>, awaited: ErrorStatus) -> Poll<T> {
    if is_awaited(outcome, awaited) {
        Poll::Wait(RETRY_INTERVAL_MS)
    } else {
        Poll::Done(outcome)
    }
}

/// Decides what follows an attempt: a failure with status `awaited` is
/// retried after a pause; a success or any other failure ends the wait.
pub fn poll_step<T>(outcome: Result<T, Error>, awaited: ErrorStatus) -> (r: Poll<T>)
    ensures
        r == poll_decision(outcome, awaited),
{
    let retry = match &outcome {
        Err(Error::WebDriver(es, _)) => *es == awaited,
        _ => false,
    };
    if retry {
        Poll::Wait(RETRY_INTERVAL_MS)
    } else {
        Poll::Done(outcome)
    }
}

/// Where a poller fed the attempts `outcomes` in turn ends: its outcome
/// (`None`: still waiting after the last one) and how many pauses it took.
pub open spec fn poll_run<T>(outcomes: Seq<Result<T, Error>>, awaited: ErrorStatus) -> (Option<
    Result<T, Error>,
>, nat)
    decreases outcomes.len(),
{
    if outcomes.len() == 0 {
        (None, 0)
    } else {
        match poll_decision(outcomes[0], awaited) {
            Poll::Done(r) => (Some(r), 0),
            Poll::Wait(_) => {
                let (r, n) = poll_run(outcomes.drop_first(), awaited);
                (r, n + 1)
            },
        }
    }
}

/// Attempts that fail with the awaited status `k` times and then succeed
/// with `v` make the poller answer `v` after `k` pauses, whatever follows.
pub proof fn lemma_poll_waits_out_awaited<T>(
    outcomes: Seq<Result<T, Error>>,
    awaited: ErrorStatus,
    k: nat,
    v: T,
)
    requires
        k < outcomes.len(),
        forall|i: int| 0 <= i < k ==> is_awaited(#[trigger] outcomes[i], awaited),
        outcomes[k as int] == Ok::<T, Error>(v),
    ensures
        poll_run(outcomes, awaited) == (Some(Ok::<T, Error>(v)), k),
    decreases k,
{
    if k > 0 {
        let rest = outcomes.drop_first();
        assert forall|i: int| 0 <= i < (k - 1) as nat implies is_awaited(#[trigger] rest[i], awaited) by {
            assert(rest[i] == outcomes[i + 1]);
        }
        lemma_poll_waits_out_awaited(rest, awaited, (k - 1) as nat, v);
        assert(is_awaited(outcomes[0], awaited));
    }
}

/// Attempts that fail with the awaited status `k` times and then fail
/// otherwise make the poller answer that failure after `k` pauses.
pub proof fn lemma_poll_stops_at_other_failure<T>(
    outcomes: Seq<Result<T, Error>>,
    awaited: ErrorStatus,
    k: nat,
)
    requires
        k < outcomes.len(),
        forall|i: int| 0 <= i < k ==> is_awaited(#[trigger] outcomes[i], awaited),
        outcomes[k as int] is Err,
        !is_awaited(outcomes[k as int], awaited),
    ensures
        poll_run(outcomes, awaited) == (Some(outcomes[k as int]), k),
    decreases k,
{
    if k > 0 {
        let rest = outcomes.drop_first();
        assert forall|i: int| 0 <= i < (k - 1) as nat implies is_awaited(#[trigger] rest[i], awaited) by {
            assert(rest[i] == outcomes[i + 1]);
        }
        lemma_poll_stops_at_other_failure(rest, awaited, (k - 1) as nat);
        assert(is_awaited(outcomes[0], awaited));
    }
}

/// Waiting for an element: two "no such element" failures and then `v`
/// give `v` after two pauses of the retry interval; a stale element
/// reference at the first attempt is returned at once, without a pause.
pub proof fn lemma_wait_for_element<T>(
    m1: String,
    m2: String,
    v: T,
    m: String,
    later: Seq<Result<T, Error>>,
)
    ensures
        poll_run(
            seq![
                Err(Error::WebDriver(ErrorStatus::NoSuchElement, m1)),
                Err(Error::WebDriver(ErrorStatus::NoSuchElement, m2)),
                Ok(v),
            ] + later,
            ErrorStatus::NoSuchElement,
        ) == (Some(Ok::<T, Error>(v)), 2nat),
        poll_decision(
            Err::<T, Error>(Error::WebDriver(ErrorStatus::NoSuchElement, m1)),
            ErrorStatus::NoSuchElement,
        ) == Poll::<T>::Wait(RETRY_INTERVAL_MS),
        RETRY_INTERVAL_MS == 100,
        poll_run(
            seq![Err(Error::WebDriver(ErrorStatus::StaleElementReference, m))] + later,
            ErrorStatus::NoSuchElement,
        ) == (Some(Err::<T, Error>(Error::WebDriver(ErrorStatus::StaleElementReference, m))), 0nat),
{
    let s1 = seq![
        Err(Error::WebDriver(ErrorStatus::NoSuchElement, m1)),
        Err(Error::WebDriver(ErrorStatus::NoSuchElement, m2)),
        Ok(v),
    ] + later;
    assert(is_awaited(s1[0], ErrorStatus::NoSuchElement));
    assert(is_awaited(s1[1], ErrorStatus::NoSuchElement));
    lemma_poll_waits_out_awaited(s1, ErrorStatus::NoSuchElement, 2, v);
    let s2 = seq![Err(Error::WebDriver(ErrorStatus::StaleElementReference, m))] + later;
    assert(s2[0] == Err::<T, Error>(Error::WebDriver(ErrorStatus::StaleElementReference, m)));
}

} // verus!
