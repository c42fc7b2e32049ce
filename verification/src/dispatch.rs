//! The delivery of one call to the handlers of its event.
//!
//! A dispatch is begun only where the event has a handler: without one no
//! sender table and no argument is built at all. It then hands out one
//! invocation per handler, oldest handler first. The caller runs each in the
//! script runtime and reports a handler that failed; the others are run all
//! the same.
//!
//! Every invocation owns its values. What a handler does to the tables that
//! it was given reaches neither the handlers after it nor a later dispatch.

use vstd::prelude::*;
use crate::event::Event;
use crate::registry::HandlerRegistry;
use crate::calls::{Call, CallView, call_of, event_name, name_of, reloaded, reloaded_call, sender_of, args_of};
use crate::value::{HandlerRef, Value, values_view};

verus! {

/// One call of one handler.
#[derive(Debug, PartialEq, Eq)]
pub struct Invocation {
    pub handler: HandlerRef,
    pub name: Vec<u8>,
    pub sender: Value,
    pub args: Vec<Value>,
}

/// What an invocation holds: the handler and the call that it is given.
pub ghost struct InvocationView {
    pub handler: HandlerRef,
    pub call: CallView,
}

impl View for Invocation {
    type V = InvocationView;

    open spec fn view(&self) -> InvocationView {
        InvocationView {
            handler: self.handler,
            call: CallView { name: self.name@, sender: self.sender@, args: values_view(self.args@) },
        }
    }
}

/// A handler that raised an error, with the text of the error.
#[derive(Clone, Debug, PartialEq, Eq)]
pub struct Failure {
    pub handler: HandlerRef,
    pub text: Vec<u8>,
}

/// What a failure holds: the handler and the text of its error.
pub ghost struct FailureView {
    pub handler: HandlerRef,
    pub text: Seq<u8>,
}

impl View for Failure {
    type V = FailureView;

    open spec fn view(&self) -> FailureView {
        FailureView { handler: self.handler, text: self.text@ }
    }
}

/// The failures behind a list of failures.
pub open spec fn failures_view(failures: Seq<Failure>) -> Seq<FailureView> {
    Seq::new(failures.len(), |i: int| failures[i]@)
}

/// The delivery of one call, under way.
pub struct Dispatch {
    call: Call,
    handlers: Vec<HandlerRef>,
    next: usize,
    failures: Vec<Failure>,
}

/// What a dispatch holds: the call, the handlers and how far the delivery has come.
pub ghost struct DispatchView {
    /// What every handler is called with.
    pub call: CallView,
    /// The handlers to call, in this order.
    pub handlers: Seq<HandlerRef>,
    /// How many of them were handed out.
    pub position: nat,
    /// The handlers that failed so far, in the order of their failing.
    pub failures: Seq<FailureView>,
}

impl DispatchView {
    /// The invocations of this dispatch, in order: each handler with the same call.
    pub open spec fn plan(self) -> Seq<InvocationView> {
        Seq::new(
            self.handlers.len(),
            |k: int| InvocationView { handler: self.handlers[k], call: self.call },
        )
    }

    /// The dispatch after the next invocation was asked for, and that
    /// invocation: the next one of the plan, or none when the plan is done.
    pub open spec fn advance(self) -> (DispatchView, Option<InvocationView>) {
        if self.position < self.handlers.len() {
            (
                DispatchView { position: self.position + 1, ..self },
                Some(self.plan()[self.position as int]),
            )
        } else {
            (self, None)
        }
    }

    /// The dispatch after the handler of the last invocation has failed with
    /// `text`. Before the first invocation there is no handler to blame, and
    /// nothing is noted.
    pub open spec fn with_failure(self, text: Seq<u8>) -> DispatchView {
        if self.position == 0 {
            self
        } else {
            DispatchView {
                failures: self.failures.push(
                    FailureView { handler: self.handlers[self.position - 1], text },
                ),
                ..self
            }
        }
    }
}

/// The invocation behind an invocation that may not be there.
pub open spec fn invocation_view(invocation: Option<Invocation>) -> Option<InvocationView> {
    match invocation {
        Some(handed) => Some(handed@),
        None => None,
    }
}

impl View for Dispatch {
    type V = DispatchView;

    closed spec fn view(&self) -> DispatchView {
        DispatchView {
            call: self.call@,
            handlers: self.handlers@,
            position: if self.next <= self.handlers@.len() {
                self.next as nat
            } else {
                self.handlers@.len()
            },
            failures: failures_view(self.failures@),
        }
    }
}

/// A copy of `values` that shares nothing with them.
pub fn deep_copy_all(values: &Vec<Value>) -> (copy: Vec<Value>)
    ensures
        values_view(copy@) == values_view(values@),
{
    let mut copy: Vec<Value> = Vec::new();
    let mut i: usize = 0;
    while i < values.len()
        invariant
            i <= values.len(),
            copy@.len() == i,
            forall|k: int| 0 <= k < i ==> copy@[k]@ == values@[k]@,
        decreases values.len() - i,
    {
        copy.push(values[i].deep_copy());
        i += 1;
    }
    assert(values_view(copy@) =~= values_view(values@));
    copy
}

impl Dispatch {
    /// Begins the delivery of `event` to the handlers that `registry` holds
    /// for it. Where there is none, nothing is built and `None` comes back.
    pub fn begin(registry: &HandlerRegistry, event: &Event) -> (dispatch: Option<Dispatch>)
        ensures
            dispatch is None <==> registry.handlers_for(event_name(event@)).len() == 0,
            dispatch matches Some(begun) ==> begun@ == (DispatchView {
                call: call_of(event@),
                handlers: registry.handlers_for(event_name(event@)),
                position: 0,
                failures: Seq::empty(),
            }),
    {
        let name = name_of(event);
        if !registry.has_handlers(&name) {
            return None;
        }
        let handlers = registry.handlers(&name);
        let call = Call { name, sender: sender_of(event), args: args_of(event) };
        let dispatch = Dispatch { call, handlers, next: 0, failures: Vec::new() };
        assert(dispatch@.failures =~= Seq::<FailureView>::empty());
        Some(dispatch)
    }

    /// Begins the delivery of the call that follows a reload of the plugins.
    pub fn begin_reloaded(registry: &HandlerRegistry) -> (dispatch: Option<Dispatch>)
        ensures
            dispatch is None <==> registry.handlers_for(reloaded_call().name).len() == 0,
            dispatch matches Some(begun) ==> begun@ == (DispatchView {
                call: reloaded_call(),
                handlers: registry.handlers_for(reloaded_call().name),
                position: 0,
                failures: Seq::empty(),
            }),
    {
        let call = reloaded();
        if !registry.has_handlers(&call.name) {
            return None;
        }
        let handlers = registry.handlers(&call.name);
        let dispatch = Dispatch { call, handlers, next: 0, failures: Vec::new() };
        assert(dispatch@.failures =~= Seq::<FailureView>::empty());
        Some(dispatch)
    }

    /// How many handlers are still to be called.
    pub fn remaining(&self) -> (left: usize)
        ensures
            left == self@.handlers.len() - self@.position,
    {
        if self.next <= self.handlers.len() {
            self.handlers.len() - self.next
        } else {
            0
        }
    }

    /// The next invocation, with values of its own, or `None` when every
    /// handler had its turn.
    pub fn next_invocation(&mut self) -> (invocation: Option<Invocation>)
        ensures
            (final(self)@, invocation_view(invocation)) == old(self)@.advance(),
    {
        if self.next >= self.handlers.len() {
            return None;
        }
        let handler = self.handlers[self.next];
        let invocation = Invocation {
            handler,
            name: self.call.name.clone(),
            sender: self.call.sender.deep_copy(),
            args: deep_copy_all(&self.call.args),
        };
        self.next = self.next + 1;
        Some(invocation)
    }

    /// Notes that the handler of the last invocation raised an error with
    /// this text. The delivery goes on with the next handler, as it would
    /// have without the failure. Before the first invocation there is no
    /// handler to blame, and nothing is noted.
    pub fn handler_failed(&mut self, text: Vec<u8>)
        ensures
            final(self)@ == old(self)@.with_failure(text@),
    {
        let handed_out = self.handlers.len() - self.remaining();
        if handed_out == 0 {
            return;
        }
        let handler = self.handlers[handed_out - 1];
        let ghost before = self.failures@;
        self.failures.push(Failure { handler, text });
        assert(failures_view(self.failures@) =~= failures_view(before).push(
            FailureView { handler, text: text@ },
        ));
    }

    /// The handlers that failed so far.
    pub fn failures(&self) -> (failures: &Vec<Failure>)
        ensures
            failures_view(failures@) == self@.failures,
    {
        &self.failures
    }
}

/// A failure changes nothing of what is still to come: the plan, and how
/// far the delivery has come, are what they were. And what is handed out
/// changes nothing of the plan either.
pub proof fn lemma_delivery_goes_on(dispatch: DispatchView, text: Seq<u8>)
    ensures
        dispatch.with_failure(text).plan() == dispatch.plan(),
        dispatch.with_failure(text).position == dispatch.position,
        dispatch.with_failure(text).advance().1 == dispatch.advance().1,
        dispatch.advance().0.plan() == dispatch.plan(),
        dispatch.advance().0.failures == dispatch.failures,
{
}

/// Every handler of a dispatch is called with the same call, in the order of
/// the handlers: what one handler was given is what each other one is given.
pub proof fn lemma_same_call_for_all(dispatch: DispatchView, i: int, j: int)
    requires
        0 <= i < dispatch.handlers.len(),
        0 <= j < dispatch.handlers.len(),
    ensures
        dispatch.plan().len() == dispatch.handlers.len(),
        dispatch.plan()[i].handler == dispatch.handlers[i],
        dispatch.plan()[i].call == dispatch.call,
        dispatch.plan()[i].call == dispatch.plan()[j].call,
{
}

} // verus!
