//! Instrumented handlers and scripted collaborators.
//!
//! The dispatch and producer contracts speak of arbitrary handlers,
//! upstream clients and sinks. The implementations here make their
//! behaviour observable from outside: a handler that counts its
//! invocations and remembers the chain it was shown, a handler that fails
//! with a chosen error, a no-input method that reads the sync status, an
//! upstream client that answers from a script, and a sink that records
//! what reached the consumer. They are the probes with which the crate's
//! guarantees — a handler never invoked on an undecodable blob, a
//! producer that outlives query failures — can be watched at run time.

use vstd::prelude::*;

use crate::context::Chain;
use crate::context::RpcContext;
use crate::dispatch::Handler;
use crate::dispatch::NoInputHandler;
use crate::dispatch::bumped;
use crate::error::RpcError;
use crate::params::decoded_u64;
use crate::params::parse_decimal_u64;
use crate::producer::QueryError;
use crate::producer::SendError;
use crate::producer::UpdateSink;
use crate::producer::UpstreamClient;

verus! {

/// A handler that decodes a decimal integer, echoes it back, and counts
/// how often it was actually invoked.
pub struct CountingHandler {
    /// How often `call` ran (never bumped by a request that failed to
    /// decode).
    pub invocations: u64,
    /// The chain of the context the last invocation was shown.
    pub last_chain: Option<Chain>,
}

impl Handler for CountingHandler {
    type Input = u64;

    type Output = u64;

    open spec fn decoded(&self, raw: Seq<u8>) -> Option<u64> {
        decoded_u64(raw)
    }

    open spec fn call_spec(
        pre: Self,
        ctx: RpcContext,
        input: u64,
        post: Self,
        out: Result<u64, RpcError>,
    ) -> bool {
        &&& post.invocations == bumped(pre.invocations)
        &&& post.last_chain == Some(ctx.chain)
        &&& out == Ok::<u64, RpcError>(input)
    }

    fn decode(&self, raw: &[u8]) -> (r: Option<u64>) {
        parse_decimal_u64(raw)
    }

    fn call(&mut self, ctx: RpcContext, input: u64) -> (out: Result<u64, RpcError>) {
        self.invocations = if self.invocations < u64::MAX {
            self.invocations + 1
        } else {
            self.invocations
        };
        self.last_chain = Some(ctx.chain);
        Ok(input)
    }
}

/// A handler that decodes a decimal integer and then fails with a chosen
/// error, for watching the error taxonomy adapter from outside.
pub struct FailingHandler {
    pub error: RpcError,
}

impl Handler for FailingHandler {
    type Input = u64;

    type Output = u64;

    open spec fn decoded(&self, raw: Seq<u8>) -> Option<u64> {
        decoded_u64(raw)
    }

    open spec fn call_spec(
        pre: Self,
        ctx: RpcContext,
        input: u64,
        post: Self,
        out: Result<u64, RpcError>,
    ) -> bool {
        &&& post == pre
        &&& out == Err::<u64, RpcError>(pre.error)
    }

    fn decode(&self, raw: &[u8]) -> (r: Option<u64>) {
        parse_decimal_u64(raw)
    }

    fn call(&mut self, ctx: RpcContext, input: u64) -> (out: Result<u64, RpcError>) {
        Err(self.error.clone())
    }
}

/// A no-input method: reports whether the node is syncing, straight from
/// the shared context.
pub struct SyncingMethod {}

impl NoInputHandler for SyncingMethod {
    type Output = bool;

    open spec fn call_spec(
        pre: Self,
        ctx: RpcContext,
        post: Self,
        out: Result<bool, RpcError>,
    ) -> bool {
        &&& post == pre
        &&& out == Ok::<bool, RpcError>(ctx.sync_status.syncing)
    }

    fn call(&mut self, ctx: RpcContext) -> (out: Result<bool, RpcError>) {
        Ok(ctx.sync_status.syncing)
    }
}

/// An upstream client that answers queries from a fixed script, front to
/// back; an entry of `None` is a failing query.
pub struct ScriptedClient {
    pub script: Vec<Option<u64>>,
    pub position: usize,
}

impl ScriptedClient {
    /// A client that will answer exactly the scripted outcomes, in order.
    pub fn new(script: Vec<Option<u64>>) -> (c: Self)
        ensures
            c.outcomes() == script@,
    {
        let c = ScriptedClient { script, position: 0 };
        proof {
            assert(c.script@.skip(0) =~= c.script@);
        }
        c
    }
}

impl UpstreamClient<u64> for ScriptedClient {
    open spec fn outcomes(&self) -> Seq<Option<u64>> {
        if self.position <= self.script@.len() {
            self.script@.skip(self.position as int)
        } else {
            Seq::empty()
        }
    }

    fn query_latest_state(&mut self) -> (r: Result<u64, QueryError>) {
        proof {
            assert(old(self).outcomes().len() > 0);
            assert(old(self).outcomes() == old(self).script@.skip(old(self).position as int));
            assert(old(self).position < old(self).script@.len());
            vstd::std_specs::vec::axiom_spec_len(&old(self).script);
        }
        let o = self.script[self.position];
        self.position = self.position + 1;
        proof {
            assert(old(self).script@.skip(old(self).position as int).drop_first() =~= self.script@.skip(
                self.position as int,
            ));
        }
        match o {
            Some(u) => Ok(u),
            None => Err(QueryError {}),
        }
    }
}

/// A sink that records every update the consumer received; when the
/// consumer is gone it refuses every send.
pub struct CollectingSink {
    pub received: Vec<u64>,
    pub consumer_gone: bool,
}

impl UpdateSink<u64> for CollectingSink {
    open spec fn sent(&self) -> Seq<u64> {
        self.received@
    }

    open spec fn closed(&self) -> bool {
        self.consumer_gone
    }

    fn send(&mut self, update: u64) -> (r: Result<(), SendError>) {
        if self.consumer_gone {
            Err(SendError {})
        } else {
            self.received.push(update);
            Ok(())
        }
    }
}

} // verus!
