//! The polling synchronization producer.
//!
//! A background task keeps one piece of node state fresh: it queries an
//! upstream source on a fixed schedule and forwards each success to the
//! sink feeding the consumer. One query failing is routine — the iteration
//! is skipped and the schedule goes on unchanged, with no retry, no
//! backoff and no cutoff. The single fatal condition is the sink refusing
//! a send: the consumer is gone, so the producer stops and reports it.
//!
//! [`run_producer`] is the loop itself, over a bounded budget of
//! iterations so that it terminates: one iteration per poll interval, so a
//! budget of `n` stands for the first `n` ticks of the schedule. A host
//! that wants the unbounded loop runs the same two-branch policy,
//! [`plan_iteration`], once per tick with real sleeps between.

use vstd::prelude::*;

verus! {

/// An upstream query failed. The producer tolerates it: no payload
/// reaches the consumer and the schedule continues.
#[derive(Clone, Copy, Debug, PartialEq, Eq, Structural)]
pub struct QueryError {}

/// A send was refused because the consumer end of the sink is gone.
#[derive(Clone, Copy, Debug, PartialEq, Eq, Structural)]
pub struct SendError {}

/// The upstream source of layer-1 state, one query per poll tick.
///
/// `outcomes` is the client's model: the outcomes of the queries it will
/// answer, next first — `None` stands for a failed query. Each call to
/// `query_latest_state` answers with the front outcome and consumes it.
pub trait UpstreamClient<U> {
    /// The outcomes of the queries this client has yet to answer, next
    /// first.
    spec fn outcomes(&self) -> Seq<Option<U>>;

    /// Query the latest upstream state.
    fn query_latest_state(&mut self) -> (r: Result<U, QueryError>)
        requires
            old(self).outcomes().len() > 0,
        ensures
            final(self).outcomes() == old(self).outcomes().drop_first(),
            match r {
                Ok(u) => old(self).outcomes()[0] == Some(u),
                Err(_) => old(self).outcomes()[0] is None,
            },
    ;
}

/// The sending end of the consumer channel.
///
/// `sent` is everything forwarded so far, in order; `closed` says whether
/// the consumer end is gone. A send on an open sink appends and succeeds;
/// a send on a closed sink forwards nothing and fails. Closing is one-way:
/// a sink that refused a send stays closed.
pub trait UpdateSink<U> {
    /// Everything forwarded to the consumer so far, in order.
    spec fn sent(&self) -> Seq<U>;

    /// The consumer end is gone.
    spec fn closed(&self) -> bool;

    /// Forward one update to the consumer.
    fn send(&mut self, update: U) -> (r: Result<(), SendError>)
        ensures
            old(self).closed() ==> r is Err && final(self).sent() == old(self).sent()
                && final(self).closed(),
            !old(self).closed() ==> r is Ok && final(self).sent() == old(self).sent().push(update)
                && !final(self).closed(),
    ;
}

/// What one poll tick decided.
#[derive(Clone, Copy, Debug, PartialEq, Eq)]
pub enum PollAction<U> {
    /// The query succeeded: forward its result to the consumer.
    Forward(U),
    /// The query failed: forward nothing, keep the schedule unchanged.
    ContinueAfterFailure,
}

/// The two-branch policy of one poll tick: a success is forwarded, a
/// failure is tolerated. Nothing else is ever decided from a query
/// outcome.
pub fn plan_iteration<U>(outcome: Result<U, QueryError>) -> (a: PollAction<U>)
    ensures
        match outcome {
            Ok(u) => a == PollAction::Forward(u),
            Err(_) => a == PollAction::ContinueAfterFailure::<U>,
        },
{
    match outcome {
        Ok(u) => PollAction::Forward(u),
        Err(_) => PollAction::ContinueAfterFailure,
    }
}

/// How a bounded producer run ended.
#[derive(Clone, Copy, Debug, PartialEq, Eq, Structural)]
pub enum ProducerExit {
    /// The iteration budget ran out; the task would simply keep polling.
    Completed,
    /// A send was refused: the consumer is gone and the task stops.
    ConsumerGone,
}

/// The successful results among a sequence of query outcomes, in order.
pub open spec fn successes<U>(outcomes: Seq<Option<U>>) -> Seq<U>
    decreases outcomes.len(),
{
    if outcomes.len() == 0 {
        Seq::empty()
    } else {
        let init = successes(outcomes.drop_last());
        match outcomes.last() {
            Some(u) => init.push(u),
            None => init,
        }
    }
}

/// `j` is the position of the first successful outcome.
pub open spec fn is_first_success<U>(outcomes: Seq<Option<U>>, j: int) -> bool {
    &&& 0 <= j < outcomes.len()
    &&& outcomes[j] is Some
    &&& forall|k: int| 0 <= k < j ==> outcomes[k] is None
}

/// Some outcome in the sequence is a success.
pub open spec fn has_success<U>(outcomes: Seq<Option<U>>) -> bool {
    exists|j: int| is_first_success(outcomes, j)
}

/// The position of the first successful outcome (meaningful when one
/// exists).
pub open spec fn first_success_index<U>(outcomes: Seq<Option<U>>) -> int {
    choose|j: int| is_first_success(outcomes, j)
}

/// At most one position is the first success.
proof fn lemma_first_success_unique<U>(outcomes: Seq<Option<U>>, a: int, b: int)
    requires
        is_first_success(outcomes, a),
        is_first_success(outcomes, b),
    ensures
        a == b,
{
}

/// Extending a prefix of outcomes by one extends its successes by the
/// new outcome's result, if it has one.
proof fn lemma_successes_step<U>(outcomes: Seq<Option<U>>, i: int)
    requires
        0 <= i < outcomes.len(),
    ensures
        successes(outcomes.take(i + 1)) == match outcomes[i] {
            Some(u) => successes(outcomes.take(i)).push(u),
            None => successes(outcomes.take(i)),
        },
{
    assert(outcomes.take(i + 1).drop_last() =~= outcomes.take(i));
    assert(outcomes.take(i + 1).last() == outcomes[i]);
}

/// Run the polling producer for a bounded number of poll ticks.
///
/// Against an open sink the run always completes its budget: every
/// success among the answered queries — and nothing else — is forwarded
/// to the consumer, in order, one query consumed per tick; failed queries
/// forward nothing and never end the run. Against a closed sink the first
/// success hits the refused send: the run stops right there with
/// [`ProducerExit::ConsumerGone`], forwards nothing, and consumes no
/// query beyond the one that produced that success; with no success in
/// the budget the closure is never even noticed.
pub fn run_producer<U, C: UpstreamClient<U>, S: UpdateSink<U>>(
    client: &mut C,
    sink: &mut S,
    iterations: usize,
) -> (exit: ProducerExit)
    requires
        old(client).outcomes().len() >= iterations,
    ensures
        ({
            let plan = old(client).outcomes().take(iterations as int);
            &&& (!old(sink).closed() ==> {
                &&& exit == ProducerExit::Completed
                &&& final(client).outcomes() == old(client).outcomes().skip(iterations as int)
                &&& final(sink).sent() == old(sink).sent() + successes(plan)
                &&& !final(sink).closed()
            })
            &&& (old(sink).closed() ==> {
                &&& final(sink).sent() == old(sink).sent()
                &&& final(sink).closed()
                &&& (has_success(plan) ==> exit == ProducerExit::ConsumerGone
                    && final(client).outcomes() == old(client).outcomes().skip(
                    first_success_index(plan) + 1,
                ))
                &&& (!has_success(plan) ==> exit == ProducerExit::Completed
                    && final(client).outcomes() == old(client).outcomes().skip(iterations as int))
            })
        }),
{
    let ghost all = old(client).outcomes();
    let mut i: usize = 0;
    while i < iterations
        invariant
            i <= iterations,
            all.len() >= iterations,
            all == old(client).outcomes(),
            client.outcomes() == all.skip(i as int),
            !old(sink).closed() ==> sink.sent() == old(sink).sent() + successes(
                all.take(i as int),
            ) && !sink.closed(),
            old(sink).closed() ==> sink.sent() == old(sink).sent() && sink.closed()
                && (forall|k: int| 0 <= k < i ==> all[k] is None),
        decreases iterations - i,
    {
        let outcome = client.query_latest_state();
        proof {
            assert(all.skip(i as int).drop_first() =~= all.skip(i + 1));
            lemma_successes_step(all, i as int);
        }
        match plan_iteration(outcome) {
            PollAction::Forward(u) => {
                match sink.send(u) {
                    Ok(_) => {
                        proof {
                            assert(sink.sent() =~= old(sink).sent() + successes(all.take(i + 1)));
                        }
                    },
                    Err(_) => {
                        proof {
                            let plan = all.take(iterations as int);
                            assert(plan[i as int] == all[i as int]);
                            assert(is_first_success(plan, i as int));
                            lemma_first_success_unique(plan, first_success_index(plan), i as int);
                        }
                        return ProducerExit::ConsumerGone;
                    },
                }
            },
            PollAction::ContinueAfterFailure => {},
        }
        i += 1;
    }
    proof {
        assert(all.take(iterations as int) =~= all.take(i as int));
    }
    ProducerExit::Completed
}

} // verus!
