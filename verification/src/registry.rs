//! The registry of an island: the names of its actors, in the order in which
//! they were registered. It only grows, and the position of a name is the
//! handle under which the scheduler knows the actor.
//!
//! A name that is already registered is refused: the first registration
//! stands.

use vstd::prelude::*;
use crate::wire::{bytes_equal, copy_bytes};

verus! {

/// The first position at or after `from` at which `names` holds `name`.
pub open spec fn spec_lookup_from(names: Seq<Seq<u8>>, name: Seq<u8>, from: int) -> Option<int>
    decreases names.len() - from,
{
    if from < 0 || from >= names.len() {
        None
    } else if names[from] == name {
        Some(from)
    } else {
        spec_lookup_from(names, name, from + 1)
    }
}

/// The position of `name` in `names`, if it is there.
pub open spec fn spec_lookup(names: Seq<Seq<u8>>, name: Seq<u8>) -> Option<int> {
    spec_lookup_from(names, name, 0)
}

/// No name occurs twice.
pub open spec fn distinct_names(names: Seq<Seq<u8>>) -> bool {
    forall|i: int, j: int| 0 <= i < j < names.len() ==> names[i] != names[j]
}

proof fn lemma_lookup_from(names: Seq<Seq<u8>>, name: Seq<u8>, from: int)
    requires
        0 <= from <= names.len(),
    ensures
        match spec_lookup_from(names, name, from) {
            Some(i) => from <= i < names.len() && names[i] == name && forall|k: int|
                from <= k < i ==> names[k] != name,
            None => forall|k: int| from <= k < names.len() ==> names[k] != name,
        },
    decreases names.len() - from,
{
    if from < names.len() && names[from] != name {
        lemma_lookup_from(names, name, from + 1);
    }
}

/// A lookup finds a name exactly where the registry holds it, and at its
/// first position.
pub proof fn lemma_lookup(names: Seq<Seq<u8>>, name: Seq<u8>)
    ensures
        spec_lookup(names, name) is Some <==> names.contains(name),
        match spec_lookup(names, name) {
            Some(i) => 0 <= i < names.len() && names[i] == name && forall|k: int|
                0 <= k < i ==> names[k] != name,
            None => true,
        },
{
    lemma_lookup_from(names, name, 0);
}

/// Registering one more name leaves every earlier name where it was.
pub proof fn lemma_lookup_after_push(names: Seq<Seq<u8>>, added: Seq<u8>, name: Seq<u8>)
    ensures
        names.contains(name) ==> spec_lookup(names.push(added), name) == spec_lookup(names, name),
        !names.contains(name) && name == added ==> spec_lookup(names.push(added), name) == Some(
            names.len() as int,
        ),
        !names.contains(name) && name != added ==> spec_lookup(names.push(added), name) is None,
{
    let more = names.push(added);
    lemma_lookup(names, name);
    lemma_lookup(more, name);
    assert(forall|k: int| 0 <= k < names.len() ==> more[k] == names[k]);
    assert(more[names.len() as int] == added);
}

/// The names of the actors of one island.
pub struct Registry {
    names: Vec<Vec<u8>>,
}

impl View for Registry {
    type V = Seq<Seq<u8>>;

    closed spec fn view(&self) -> Seq<Seq<u8>> {
        Seq::new(self.names@.len(), |i: int| self.names@[i]@)
    }
}

impl Registry {
    /// The registry holds no name twice.
    pub open spec fn wf(&self) -> bool {
        distinct_names(self@)
    }

    /// A registry without names.
    pub fn new() -> (out: Registry)
        ensures
            out@ == Seq::<Seq<u8>>::empty(),
            out.wf(),
    {
        let out = Registry { names: Vec::new() };
        assert(out@ =~= Seq::<Seq<u8>>::empty());
        out
    }

    /// The number of registered names.
    pub fn len(&self) -> (n: usize)
        ensures
            n == self@.len(),
    {
        self.names.len()
    }

    /// The handle of `name`, if it is registered.
    pub fn find(&self, name: &[u8]) -> (out: Option<usize>)
        ensures
            out is Some <==> self@.contains(name@),
            match out {
                Some(h) => spec_lookup(self@, name@) == Some(h as int) && h < self@.len()
                    && self@[h as int] == name@,
                None => spec_lookup(self@, name@) is None,
            },
    {
        proof {
            lemma_lookup(self@, name@);
        }
        let mut i: usize = 0;
        while i < self.names.len()
            invariant
                i <= self.names@.len(),
                self@.len() == self.names@.len(),
                spec_lookup(self@, name@) == spec_lookup_from(self@, name@, i as int),
            decreases self.names.len() - i,
        {
            assert(self@[i as int] == self.names@[i as int]@);
            if bytes_equal(self.names[i].as_slice(), name) {
                return Some(i);
            }
            i = i + 1;
        }
        None
    }

    /// Registers `name` and returns its handle. A name that is already
    /// registered is refused and the registry stays as it was.
    pub fn register(&mut self, name: &[u8]) -> (out: Option<usize>)
        requires
            old(self).wf(),
        ensures
            final(self).wf(),
            out is None <==> old(self)@.contains(name@),
            match out {
                Some(h) => h == old(self)@.len() && final(self)@ == old(self)@.push(name@),
                None => final(self)@ == old(self)@,
            },
    {
        if self.find(name).is_some() {
            return None;
        }
        let handle: usize = self.names.len();
        self.names.push(copy_bytes(name));
        assert(self@ =~= old(self)@.push(name@));
        assert forall|i: int, j: int| 0 <= i < j < self@.len() implies self@[i] != self@[j] by {
            if j == old(self)@.len() {
                assert(old(self)@[i] == self@[i]);
                assert(old(self)@.contains(self@[i]));
            } else {
                assert(old(self)@[i] == self@[i]);
                assert(old(self)@[j] == self@[j]);
            }
        }
        Some(handle)
    }
}

} // verus!
