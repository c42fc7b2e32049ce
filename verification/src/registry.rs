//! The handlers that a script context has registered, by event name.

use vstd::prelude::*;
use crate::bytes::same_bytes;
use crate::value::HandlerRef;

verus! {

/// The handlers of one event name, in the order of their registration.
struct HandlerList {
    name: Vec<u8>,
    handlers: Vec<HandlerRef>,
}

/// For each event name the callbacks registered for it, oldest first.
/// A name is listed from its first handler on, and no handler is ever
/// removed but by `clear`.
pub struct HandlerRegistry {
    lists: Vec<HandlerList>,
}

impl HandlerRegistry {
    /// Whether the list at `i` is the first one that carries `name`.
    spec fn first_at(self, name: Seq<u8>, i: int) -> bool {
        &&& 0 <= i < self.lists@.len()
        &&& self.lists@[i].name@ == name
        &&& forall|k: int| 0 <= k < i ==> self.lists@[k].name@ != name
    }

    spec fn listed(self, name: Seq<u8>) -> bool {
        exists|i: int| self.first_at(name, i)
    }

    spec fn index_of(self, name: Seq<u8>) -> int {
        choose|i: int| self.first_at(name, i)
    }

    /// The handlers registered for `name`, oldest first; none where the name is unknown.
    pub open spec fn handlers_for(self, name: Seq<u8>) -> Seq<HandlerRef> {
        if self@.contains_key(name) {
            self@[name]
        } else {
            Seq::empty()
        }
    }

    /// A registry without handlers.
    pub fn new() -> (registry: HandlerRegistry)
        ensures
            registry@ == Map::<Seq<u8>, Seq<HandlerRef>>::empty(),
    {
        let registry = HandlerRegistry { lists: Vec::new() };
        assert(registry@ =~= Map::<Seq<u8>, Seq<HandlerRef>>::empty());
        registry
    }

    /// Where the first list of `name` stands, if it has one.
    fn position(&self, name: &Vec<u8>) -> (found: Option<usize>)
        ensures
            match found {
                Some(i) => self.first_at(name@, i as int),
                None => forall|k: int| 0 <= k < self.lists@.len() ==> self.lists@[k].name@ != name@,
            },
    {
        let mut i: usize = 0;
        while i < self.lists.len()
            invariant
                i <= self.lists.len(),
                forall|k: int| 0 <= k < i ==> self.lists@[k].name@ != name@,
            decreases self.lists.len() - i,
        {
            if same_bytes(&self.lists[i].name, name) {
                return Some(i);
            }
            i += 1;
        }
        None
    }

    /// The first list of a name stands at one place only.
    proof fn lemma_first_unique(self, name: Seq<u8>, i: int, j: int)
        requires
            self.first_at(name, i),
            self.first_at(name, j),
        ensures
            i == j,
    {
    }

    /// Where a name's first list stands at `i`, the registry holds that list's handlers for it.
    proof fn lemma_lookup(self, name: Seq<u8>, i: int)
        requires
            self.first_at(name, i),
        ensures
            self@.contains_key(name),
            self@[name] == self.lists@[i].handlers@,
    {
        self.lemma_first_unique(name, i, self.index_of(name));
    }

    /// Whether `name` has a handler.
    pub fn has_handlers(&self, name: &Vec<u8>) -> (any: bool)
        ensures
            any == (self.handlers_for(name@).len() > 0),
    {
        match self.position(name) {
            Some(i) => {
                proof {
                    self.lemma_lookup(name@, i as int);
                }
                self.lists[i].handlers.len() > 0
            },
            None => false,
        }
    }

    /// The handlers of `name`, oldest first.
    pub fn handlers(&self, name: &Vec<u8>) -> (list: Vec<HandlerRef>)
        ensures
            list@ == self.handlers_for(name@),
    {
        let mut list: Vec<HandlerRef> = Vec::new();
        match self.position(name) {
            Some(i) => {
                proof {
                    self.lemma_lookup(name@, i as int);
                }
                let found = &self.lists[i].handlers;
                let mut k: usize = 0;
                while k < found.len()
                    invariant
                        k <= found.len(),
                        list@ == found@.subrange(0, k as int),
                    decreases found.len() - k,
                {
                    list.push(found[k]);
                    k += 1;
                    assert(list@ =~= found@.subrange(0, k as int));
                }
                assert(list@ =~= found@);
            },
            None => {},
        }
        list
    }

    /// Forgets every handler.
    pub fn clear(&mut self)
        ensures
            final(self)@ == Map::<Seq<u8>, Seq<HandlerRef>>::empty(),
    {
        self.lists = Vec::new();
        assert(self@ =~= Map::<Seq<u8>, Seq<HandlerRef>>::empty());
    }

    /// Adds `handler` behind those already registered for `name`.
    pub fn add_handler(&mut self, name: Vec<u8>, handler: HandlerRef)
        ensures
            final(self)@ == old(self)@.insert(name@, old(self).handlers_for(name@).push(handler)),
    {
        let ghost before = *self;
        let ghost key = name@;
        let ghost wanted = before@.insert(key, before.handlers_for(key).push(handler));
        match self.position(&name) {
            Some(i) => {
                proof {
                    before.lemma_lookup(key, i as int);
                }
                self.lists[i].handlers.push(handler);
                proof {
                    assert(self.first_at(key, i as int));
                    self.lemma_lookup(key, i as int);
                    assert(self@[key] == wanted[key]);
                }
            },
            None => {
                let mut handlers: Vec<HandlerRef> = Vec::new();
                handlers.push(handler);
                self.lists.push(HandlerList { name, handlers });
                proof {
                    let last = before.lists@.len() as int;
                    assert(!before.listed(key));
                    assert(self.first_at(key, last));
                    self.lemma_lookup(key, last);
                    assert(self.lists@[last].handlers@ =~= Seq::<HandlerRef>::empty().push(handler));
                    assert(self@[key] == wanted[key]);
                }
            },
        }
        proof {
            let after = *self;
            assert(after.lists@.len() >= before.lists@.len());
            assert(forall|k: int| 0 <= k < before.lists@.len() ==> after.lists@[k].name@ == before.lists@[k].name@);
            assert(after@.dom().contains(key) && after@[key] == wanted[key]);
            assert forall|other: Seq<u8>| other != key implies #[trigger] after@.dom().contains(other)
                == before@.dom().contains(other) && (after@.dom().contains(other) ==> after@[other]
                == before@[other]) by {
                if before.listed(other) {
                    let i = before.index_of(other);
                    assert(after.first_at(other, i));
                    after.lemma_lookup(other, i);
                    before.lemma_lookup(other, i);
                }
                if after.listed(other) {
                    let i = after.index_of(other);
                    assert(before.first_at(other, i));
                    after.lemma_lookup(other, i);
                    before.lemma_lookup(other, i);
                }
            }
            assert(after@ =~= wanted);
        }
    }
}

impl View for HandlerRegistry {
    type V = Map<Seq<u8>, Seq<HandlerRef>>;

    closed spec fn view(&self) -> Map<Seq<u8>, Seq<HandlerRef>> {
        Map::new(
            |name: Seq<u8>| self.listed(name),
            |name: Seq<u8>| self.lists@[self.index_of(name)].handlers@,
        )
    }
}

} // verus!
