//! The method adapter and the dispatch registrar.
//!
//! A [`Handler`] is one endpoint's behaviour: it says how its raw
//! parameter blob decodes and what it does with the decoded input and a
//! duplicate of the shared context. [`invoke_method`] adapts a handler
//! into the transport's shape — decode, invoke, map the error — and
//! [`MethodTable`] is the routing table that binds adapters under unique
//! method names, counts served calls, and routes each request to the
//! handler its name selects.

use vstd::prelude::*;

use crate::context::RpcContext;
use crate::error::RpcError;
use crate::error::TransportError;
use crate::error::into_transport;
use crate::error::invalid_params_error;
use crate::error::is_invalid_params;
use crate::error::is_method_not_found;
use crate::error::method_not_found_error;
use crate::error::represents;

verus! {

/// One endpoint's behaviour, to be adapted into the transport's shape.
///
/// Implementations state in `decoded` what each raw parameter blob decodes
/// to, and `decode` is held to that statement. `call` runs the handler on
/// an owned duplicate of the shared context; a handler may carry state
/// that its invocations update. What a handler computes is its own
/// business: it describes itself in `call_spec`, as loosely or as exactly
/// as it wants, and `call` is held to that relation — which is what lets
/// the adapter promise that the outcome it surfaces is an outcome of the
/// handler, on exactly the decoded input and the context it was handed.
pub trait Handler: Sized {
    type Input;

    type Output;

    /// What each raw parameter blob decodes to for this handler.
    spec fn decoded(&self, raw: Seq<u8>) -> Option<Self::Input>;

    /// The handler's relation: from the state, context and input `call`
    /// was invoked on to the state it may end in and the outcome it may
    /// produce.
    spec fn call_spec(
        pre: Self,
        ctx: RpcContext,
        input: Self::Input,
        post: Self,
        out: Result<Self::Output, RpcError>,
    ) -> bool;

    /// Decode a raw parameter blob into the handler's input type.
    fn decode(&self, raw: &[u8]) -> (r: Option<Self::Input>)
        ensures
            r == self.decoded(raw@),
    ;

    /// Run the handler on an owned duplicate of the context and the
    /// decoded input.
    fn call(&mut self, ctx: RpcContext, input: Self::Input) -> (out: Result<
        Self::Output,
        RpcError,
    >)
        ensures
            Self::call_spec(*old(self), ctx, input, *final(self), out),
    ;
}

/// One endpoint's behaviour when it takes no parameters.
pub trait NoInputHandler: Sized {
    type Output;

    /// The handler's relation: from the state and context `call` was
    /// invoked on to the state it may end in and the outcome it may
    /// produce.
    spec fn call_spec(
        pre: Self,
        ctx: RpcContext,
        post: Self,
        out: Result<Self::Output, RpcError>,
    ) -> bool;

    /// Run the handler on an owned duplicate of the context.
    fn call(&mut self, ctx: RpcContext) -> (out: Result<Self::Output, RpcError>)
        ensures
            Self::call_spec(*old(self), ctx, *final(self), out),
    ;
}

/// Adapts a [`NoInputHandler`] into the [`Handler`] shape: every raw blob
/// decodes (to the unit input), so the decode-failure path does not exist
/// for such a method.
pub struct NoInputAdapter<G> {
    pub inner: G,
}

impl<G: NoInputHandler> Handler for NoInputAdapter<G> {
    type Input = ();

    type Output = G::Output;

    open spec fn decoded(&self, raw: Seq<u8>) -> Option<()> {
        Some(())
    }

    open spec fn call_spec(
        pre: Self,
        ctx: RpcContext,
        input: (),
        post: Self,
        out: Result<G::Output, RpcError>,
    ) -> bool {
        G::call_spec(pre.inner, ctx, post.inner, out)
    }

    fn decode(&self, raw: &[u8]) -> (r: Option<()>) {
        Some(())
    }

    fn call(&mut self, ctx: RpcContext, input: ()) -> (out: Result<G::Output, RpcError>) {
        self.inner.call(ctx)
    }
}

/// Map a handler's outcome onto the transport: a success is returned as
/// it is, a handler error is mapped through the error taxonomy adapter.
pub fn map_handler_result<O>(hr: Result<O, RpcError>) -> (r: Result<O, TransportError>)
    ensures
        hr matches Ok(o) ==> r == Ok::<O, TransportError>(o),
        hr matches Err(e) ==> (r matches Err(t) && represents(t, e)),
{
    match hr {
        Ok(o) => Ok(o),
        Err(e) => Err(into_transport(e)),
    }
}

/// The method adapter: decode the raw blob, invoke the handler on an
/// owned duplicate of the context, and map any handler error onto the
/// transport.
///
/// When the blob does not decode, the caller gets the invalid-params
/// transport error and the handler is left untouched — in particular it
/// is never invoked. When the blob does decode, the result is an outcome
/// of the handler itself, invoked on exactly the caller's context value
/// and the decoded input: a success is returned as it is, a handler
/// error as its taxonomy mapping and nothing else — no internal
/// representation crosses the boundary, and the adapter can neither drop
/// nor fabricate an outcome.
pub fn invoke_method<H: Handler>(handler: &mut H, ctx: &RpcContext, raw: &[u8]) -> (r: Result<
    H::Output,
    TransportError,
>)
    ensures
        old(handler).decoded(raw@) is None ==> *final(handler) == *old(handler) && (r matches Err(t)
            && is_invalid_params(t)),
        old(handler).decoded(raw@) matches Some(input) ==> (exists|
            out: Result<H::Output, RpcError>,
        |
            {
                &&& #[trigger] H::call_spec(*old(handler), *ctx, input, *final(handler), out)
                &&& (out matches Ok(o) ==> r == Ok::<H::Output, TransportError>(o))
                &&& (out matches Err(e) ==> r matches Err(t) && represents(t, e))
            }),
{
    let decoded = handler.decode(raw);
    match decoded {
        None => Err(invalid_params_error()),
        Some(input) => {
            let ghost pre = *handler;
            let ghost decoded_input = input;
            let owned_ctx = ctx.clone();
            let hr = handler.call(owned_ctx, input);
            let ghost out = hr;
            let r = map_handler_result(hr);
            proof {
                assert(owned_ctx == *ctx);
                assert(H::call_spec(pre, *ctx, decoded_input, *handler, out));
            }
            r
        },
    }
}

/// Why a registration was refused.
#[derive(Clone, Copy, Debug, PartialEq, Eq, Structural)]
pub enum RegistrationError {
    DuplicateMethodName,
}

/// One binding of the routing table: a method name, the handler bound
/// under it, and the calls counter registered with the binding.
pub struct MethodEntry<H> {
    pub name: String,
    pub handler: H,
    pub calls: u64,
}

/// The routing table: method names, each bound to a handler, each name
/// bound at most once.
///
/// Each binding carries a monotonically increasing calls counter. The
/// counter is created (at zero) when the method is registered and counts
/// served calls: dispatch increments it once per request routed to the
/// binding, whether the request then decodes or not. Counting served
/// calls rather than registrations was chosen deliberately — a counter
/// that only ever reads one per endpoint carries no operational signal.
pub struct MethodTable<H> {
    pub entries: Vec<MethodEntry<H>>,
}

/// A counter bumped by one, stopping at its ceiling rather than wrapping.
pub open spec fn bumped(c: u64) -> u64 {
    if c < u64::MAX {
        (c + 1) as u64
    } else {
        c
    }
}

impl<H> MethodTable<H> {
    /// The registered names, in registration order.
    pub open spec fn names(&self) -> Seq<Seq<char>> {
        self.entries@.map_values(|e: MethodEntry<H>| e.name@)
    }

    /// No name is bound twice.
    pub open spec fn wf(&self) -> bool {
        forall|i: int, j: int|
            0 <= i < j < self.entries@.len() ==> self.entries@[i].name@ != self.entries@[j].name@
    }

    /// `n` is a registered name.
    pub open spec fn contains_name(&self, n: Seq<char>) -> bool {
        exists|i: int| 0 <= i < self.entries@.len() && self.entries@[i].name@ == n
    }

    /// The index `n` is bound at (meaningful when `n` is registered and
    /// the table is well formed).
    pub open spec fn index_of(&self, n: Seq<char>) -> int {
        choose|i: int| 0 <= i < self.entries@.len() && self.entries@[i].name@ == n
    }

    /// An empty routing table.
    pub fn new() -> (t: Self)
        ensures
            t.entries@.len() == 0,
            t.wf(),
    {
        MethodTable { entries: Vec::new() }
    }

    /// The number of registered methods.
    pub fn len(&self) -> (n: usize)
        ensures
            n == self.entries@.len(),
    {
        self.entries.len()
    }

    /// Look a name up in the table.
    fn find(&self, name: &String) -> (r: Option<usize>)
        ensures
            match r {
                Some(i) => i < self.entries@.len() && self.entries@[i as int].name@ == name@,
                None => !self.contains_name(name@),
            },
    {
        let mut i: usize = 0;
        while i < self.entries.len()
            invariant
                i <= self.entries@.len(),
                forall|k: int| 0 <= k < i ==> self.entries@[k].name@ != name@,
            decreases self.entries@.len() - i,
        {
            if self.entries[i].name == *name {
                return Some(i);
            }
            i += 1;
        }
        None
    }
}

impl<H: Handler> MethodTable<H> {
    /// Route one inbound request: select the binding the name points at,
    /// count the call, and run the method adapter on it.
    ///
    /// A name that is not registered gets the method-not-found transport
    /// error and leaves the table as it was. A registered name reaches
    /// exactly its own binding: its counter is bumped, every other
    /// binding is left untouched, and the set of registered names never
    /// changes. When the blob does not decode, the handler itself is left
    /// untouched — it is never invoked — and the caller gets the
    /// invalid-params transport error. When the blob does decode, the
    /// response is an outcome of the bound handler, invoked on the
    /// caller's context value and the decoded input: its success as it
    /// is, its error as the taxonomy mapping and nothing else.
    pub fn dispatch(&mut self, name: &String, ctx: &RpcContext, raw: &[u8]) -> (r: Result<
        H::Output,
        TransportError,
    >)
        requires
            old(self).wf(),
        ensures
            final(self).wf(),
            final(self).names() == old(self).names(),
            !old(self).contains_name(name@) ==> *final(self) == *old(self) && (r matches Err(t)
                && is_method_not_found(t)),
            old(self).contains_name(name@) ==> ({
                let i = old(self).index_of(name@);
                &&& final(self).entries@[i].name == old(self).entries@[i].name
                &&& final(self).entries@[i].calls == bumped(old(self).entries@[i].calls)
                &&& forall|j: int|
                    0 <= j < old(self).entries@.len() && j != i ==> final(self).entries@[j]
                        == old(self).entries@[j]
                &&& (old(self).entries@[i].handler.decoded(raw@) is None
                    ==> final(self).entries@[i].handler == old(self).entries@[i].handler
                    && (r matches Err(t) && is_invalid_params(t)))
                &&& (old(self).entries@[i].handler.decoded(raw@) matches Some(input) ==> (exists|
                    out: Result<H::Output, RpcError>,
                |
                    {
                        &&& #[trigger] H::call_spec(
                            old(self).entries@[i].handler,
                            *ctx,
                            input,
                            final(self).entries@[i].handler,
                            out,
                        )
                        &&& (out matches Ok(o) ==> r == Ok::<H::Output, TransportError>(o))
                        &&& (out matches Err(e) ==> r matches Err(t) && represents(t, e))
                    }))
            }),
    {
        let idx = match self.find(name) {
            None => {
                return Err(method_not_found_error());
            },
            Some(i) => i,
        };
        proof {
            let i = old(self).index_of(name@);
            assert(old(self).contains_name(name@));
            assert(0 <= i < old(self).entries@.len() && old(self).entries@[i].name@ == name@);
            assert(i == idx);
        }
        let entry = &mut self.entries[idx];
        entry.calls = if entry.calls < u64::MAX {
            entry.calls + 1
        } else {
            entry.calls
        };
        let r = invoke_method(&mut entry.handler, ctx, raw);
        proof {
            assert(self.names() =~= old(self).names());
            let i = old(self).index_of(name@);
            let pre_h = old(self).entries@[i].handler;
            match pre_h.decoded(raw@) {
                Some(inp) => {
                    let out = choose|out: Result<H::Output, RpcError>|
                        {
                            &&& #[trigger] H::call_spec(
                                pre_h,
                                *ctx,
                                inp,
                                self.entries@[i].handler,
                                out,
                            )
                            &&& (out matches Ok(o) ==> r == Ok::<H::Output, TransportError>(o))
                            &&& (out matches Err(e) ==> r matches Err(t) && represents(t, e))
                        };
                    assert(H::call_spec(pre_h, *ctx, inp, self.entries@[i].handler, out));
                },
                None => {},
            }
        }
        r
    }
}

/// Bind a handler under a method name.
///
/// Registration fails if and only if the name is already bound; a failed
/// registration leaves the table exactly as it was, the earlier binding
/// included. A successful registration appends the binding with a fresh
/// calls counter and keeps every earlier binding.
pub fn register_method<H: Handler>(
    module: &mut MethodTable<H>,
    method_name: String,
    method: H,
) -> (r: Result<(), RegistrationError>)
    requires
        old(module).wf(),
    ensures
        final(module).wf(),
        old(module).contains_name(method_name@) ==> r == Err::<(), RegistrationError>(
            RegistrationError::DuplicateMethodName,
        ) && *final(module) == *old(module),
        !old(module).contains_name(method_name@) ==> r == Ok::<(), RegistrationError>(())
            && final(module).entries@ == old(module).entries@.push(
            (MethodEntry { name: method_name, handler: method, calls: 0 }),
        ),
{
    match module.find(&method_name) {
        Some(_) => Err(RegistrationError::DuplicateMethodName),
        None => {
            module.entries.push(MethodEntry { name: method_name, handler: method, calls: 0 });
            proof {
                let es = module.entries@;
                let old_es = old(module).entries@;
                assert forall|i: int, j: int|
                    0 <= i < j < es.len() implies es[i].name@ != es[j].name@ by {
                    if j < old_es.len() {
                        assert(old(module).wf());
                    } else {
                        assert(es[i] == old_es[i]);
                        if es[i].name@ == es[j].name@ {
                            assert(old(module).contains_name(es[j].name@));
                        }
                    }
                }
            }
            Ok(())
        },
    }
}

/// Bind a no-input handler under a method name.
///
/// The handler is wrapped in the [`NoInputAdapter`], so requests to this
/// method never take the decode-failure path. Failure and success are as
/// for [`register_method`].
pub fn register_method_with_no_input<G: NoInputHandler>(
    module: &mut MethodTable<NoInputAdapter<G>>,
    method_name: String,
    method: G,
) -> (r: Result<(), RegistrationError>)
    requires
        old(module).wf(),
    ensures
        final(module).wf(),
        old(module).contains_name(method_name@) ==> r == Err::<(), RegistrationError>(
            RegistrationError::DuplicateMethodName,
        ) && *final(module) == *old(module),
        !old(module).contains_name(method_name@) ==> r == Ok::<(), RegistrationError>(())
            && final(module).entries@ == old(module).entries@.push(
            (MethodEntry { name: method_name, handler: NoInputAdapter { inner: method }, calls: 0 }),
        ),
{
    register_method(module, method_name, NoInputAdapter { inner: method })
}

} // verus!
