//! The script contexts of the loaded plugins, one for each.

use vstd::prelude::*;
use crate::context::{
    ConnHandle, ContextView, ScriptContext, activate_conn, begun_view, deactivate_conn, dispatch_in,
};
use crate::context::ScriptError;
use crate::dispatch::Dispatch;
use crate::event::Event;
use crate::package::{Capability, Reply, call_spec, reply_result};
use crate::calls::{call_of, reloaded_call};
use crate::value::{Value, values_view};

verus! {

/// The contexts of the loaded plugins, in the order of their loading.
pub struct PluginManager {
    contexts: Vec<ScriptContext>,
}

/// The contexts behind a list of contexts.
pub open spec fn contexts_view(contexts: Seq<ScriptContext>) -> Seq<ContextView> {
    Seq::new(contexts.len(), |i: int| contexts[i]@)
}

impl View for PluginManager {
    type V = Seq<ContextView>;

    closed spec fn view(&self) -> Seq<ContextView> {
        contexts_view(self.contexts@)
    }
}

impl PluginManager {
    /// A manager without plugins.
    pub fn new() -> (plugins: PluginManager)
        ensures
            plugins@ == Seq::<ContextView>::empty(),
    {
        let plugins = PluginManager { contexts: Vec::new() };
        assert(plugins@ =~= Seq::<ContextView>::empty());
        plugins
    }

    /// How many plugins are loaded.
    pub fn len(&self) -> (len: usize)
        ensures
            len == self@.len(),
    {
        self.contexts.len()
    }

    /// Takes in the context of one more plugin, and says at which place it stands.
    pub fn load(&mut self, context: ScriptContext) -> (place: usize)
        ensures
            place == old(self)@.len(),
            final(self)@ == old(self)@.push(context@),
    {
        let place = self.contexts.len();
        self.contexts.push(context);
        assert(self@ =~= old(self)@.push(context@));
        place
    }

    /// The context at `place`, if there is one.
    pub fn context(&self, place: usize) -> (context: Option<&ScriptContext>)
        ensures
            match context {
                Some(found) => place < self@.len() && found@ == self@[place as int],
                None => place >= self@.len(),
            },
    {
        if place < self.contexts.len() {
            Some(&self.contexts[place])
        } else {
            None
        }
    }

    /// Binds the live connection to every context.
    pub fn activate(&mut self, conn: &ConnHandle)
        ensures
            final(self)@.len() == old(self)@.len(),
            forall|i: int|
                0 <= i < old(self)@.len() ==> #[trigger] final(self)@[i] == (ContextView {
                    conn: Some(conn@),
                    ..old(self)@[i]
                }),
    {
        let mut i: usize = 0;
        while i < self.contexts.len()
            invariant
                i <= self.contexts.len(),
                self.contexts@.len() == old(self).contexts@.len(),
                forall|k: int|
                    0 <= k < i ==> (#[trigger] self.contexts@[k])@ == (ContextView {
                        conn: Some(conn@),
                        ..old(self).contexts@[k]@
                    }),
                forall|k: int|
                    i <= k < self.contexts@.len() ==> #[trigger] self.contexts@[k] == old(self).contexts@[k],
            decreases self.contexts.len() - i,
        {
            let ghost before = self.contexts@;
            activate_conn(&mut self.contexts[i], conn.duplicate());
            assert(self.contexts@.len() == before.len());
            assert(forall|k: int| 0 <= k < before.len() && k != i ==> self.contexts@[k] == before[k]);
            i += 1;
        }
    }

    /// Takes the connection from every context.
    pub fn deactivate(&mut self)
        ensures
            final(self)@.len() == old(self)@.len(),
            forall|i: int|
                0 <= i < old(self)@.len() ==> #[trigger] final(self)@[i] == (ContextView {
                    conn: None,
                    ..old(self)@[i]
                }),
    {
        let mut i: usize = 0;
        while i < self.contexts.len()
            invariant
                i <= self.contexts.len(),
                self.contexts@.len() == old(self).contexts@.len(),
                forall|k: int|
                    0 <= k < i ==> (#[trigger] self.contexts@[k])@ == (ContextView {
                        conn: None,
                        ..old(self).contexts@[k]@
                    }),
                forall|k: int|
                    i <= k < self.contexts@.len() ==> #[trigger] self.contexts@[k] == old(self).contexts@[k],
            decreases self.contexts.len() - i,
        {
            let ghost before = self.contexts@;
            deactivate_conn(&mut self.contexts[i]);
            assert(self.contexts@.len() == before.len());
            assert(forall|k: int| 0 <= k < before.len() && k != i ==> self.contexts@[k] == before[k]);
            i += 1;
        }
    }

    /// Serves one call of a script of the plugin at `place`. No other plugin
    /// is touched. Without a plugin at `place` nothing is done.
    pub fn call(&mut self, place: usize, capability: Capability, args: &Vec<Value>) -> (reply: Option<
        Result<Reply, ScriptError>,
    >)
        ensures
            final(self)@.len() == old(self)@.len(),
            forall|i: int|
                0 <= i < old(self)@.len() && i != place ==> #[trigger] final(self)@[i] == old(self)@[i],
            place >= old(self)@.len() ==> reply is None,
            place < old(self)@.len() ==> {
                &&& reply matches Some(served)
                &&& (final(self)@[place as int], reply_result(served)) == call_spec(
                    old(self)@[place as int],
                    capability,
                    values_view(args@),
                )
            },
    {
        if place >= self.contexts.len() {
            return None;
        }
        let ghost before = self.contexts@;
        let served = self.contexts[place].call(capability, args);
        assert(self.contexts@.len() == before.len());
        assert(forall|k: int| 0 <= k < before.len() && k != place ==> self.contexts@[k] == before[k]);
        Some(served)
    }

    /// Makes every context ready for its plugin to be loaded again: the
    /// connection is taken from it and its handlers are forgotten.
    pub fn begin_reload(&mut self)
        ensures
            final(self)@.len() == old(self)@.len(),
            forall|i: int|
                0 <= i < old(self)@.len() ==> #[trigger] final(self)@[i] == (ContextView {
                    handlers: Map::empty(),
                    conn: None,
                }),
    {
        let mut i: usize = 0;
        while i < self.contexts.len()
            invariant
                i <= self.contexts.len(),
                self.contexts@.len() == old(self).contexts@.len(),
                forall|k: int|
                    0 <= k < i ==> (#[trigger] self.contexts@[k])@ == (ContextView {
                        handlers: Map::empty(),
                        conn: None,
                    }),
            decreases self.contexts.len() - i,
        {
            let ghost before = self.contexts@;
            self.contexts[i].begin_reload();
            assert(self.contexts@.len() == before.len());
            assert(forall|k: int| 0 <= k < before.len() && k != i ==> self.contexts@[k] == before[k]);
            i += 1;
        }
    }

    /// Begins, in every context, the delivery of the call that follows a
    /// reload of the plugins.
    pub fn dispatch_reloaded(&self) -> (dispatches: Vec<Option<Dispatch>>)
        ensures
            dispatches@.len() == self@.len(),
            forall|i: int|
                0 <= i < self@.len() ==> begun_view(#[trigger] dispatches@[i]) == dispatch_in(
                    self@[i],
                    reloaded_call(),
                ),
    {
        let mut dispatches: Vec<Option<Dispatch>> = Vec::new();
        let mut i: usize = 0;
        while i < self.contexts.len()
            invariant
                i <= self.contexts.len(),
                dispatches@.len() == i,
                forall|k: int|
                    0 <= k < i ==> begun_view(#[trigger] dispatches@[k]) == dispatch_in(
                        self.contexts@[k]@,
                        reloaded_call(),
                    ),
            decreases self.contexts.len() - i,
        {
            let dispatch = self.contexts[i].dispatch_reloaded();
            dispatches.push(dispatch);
            i += 1;
        }
        dispatches
    }

    /// Begins the delivery of `event` in every context, each on its own: what
    /// happens in one delivery has no part in another.
    pub fn dispatch_irc_event(&self, event: &Event) -> (dispatches: Vec<Option<Dispatch>>)
        ensures
            dispatches@.len() == self@.len(),
            forall|i: int|
                0 <= i < self@.len() ==> begun_view(#[trigger] dispatches@[i]) == dispatch_in(
                    self@[i],
                    call_of(event@),
                ),
    {
        let mut dispatches: Vec<Option<Dispatch>> = Vec::new();
        let mut i: usize = 0;
        while i < self.contexts.len()
            invariant
                i <= self.contexts.len(),
                dispatches@.len() == i,
                forall|k: int|
                    0 <= k < i ==> begun_view(#[trigger] dispatches@[k]) == dispatch_in(
                        self.contexts@[k]@,
                        call_of(event@),
                    ),
            decreases self.contexts.len() - i,
        {
            let dispatch = self.contexts[i].dispatch_event(event);
            dispatches.push(dispatch);
            i += 1;
        }
        dispatches
    }
}

} // verus!
