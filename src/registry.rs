//! The producers of a process, in the order in which they were registered.
use vstd::prelude::*;
use crate::pass::PassFrom;

verus! {

/// The position of the first identity equal to `key`.
pub open spec fn first_match(ids: Seq<(Seq<char>, usize)>, key: (Seq<char>, usize)) -> Option<nat> {
    if exists|i: int| 0 <= i < ids.len() && ids[i] == key {
        let i = choose|i: int| 0 <= i < ids.len() && ids[i] == key && forall|j: int| 0 <= j < i ==> ids[j] != key;
        Some(i as nat)
    } else {
        None
    }
}

/// The handles of the registered producers, each under its identity. Nothing
/// is ever removed; two producers may share an identity, and then the first
/// one registered is the one found.
pub struct Registry<H> {
    ids: Vec<PassFrom>,
    handles: Vec<H>,
}

impl<H> Registry<H> {
    /// The identities, in the order of registration.
    pub closed spec fn ids(&self) -> Seq<(Seq<char>, usize)> {
        self.ids@.map_values(|f: PassFrom| f@)
    }

    /// The handles, in the order of registration.
    pub closed spec fn handles(&self) -> Seq<H> {
        self.handles@
    }

    pub open spec fn wf(&self) -> bool {
        self.ids().len() == self.handles().len()
    }

    /// An empty registry.
    pub fn new() -> (r: Registry<H>)
        ensures
            r.wf(),
            r.ids() == Seq::<(Seq<char>, usize)>::empty(),
    {
        let r = Registry { ids: Vec::new(), handles: Vec::new() };
        assert(r.ids() =~= Seq::<(Seq<char>, usize)>::empty());
        r
    }

    pub fn len(&self) -> (r: usize)
        requires
            self.wf(),
        ensures
            r == self.ids().len(),
    {
        self.ids.len()
    }

    /// Registers `handle` under the identity (`alias`, `time`), after all others.
    pub fn add(&mut self, alias: String, time: usize, handle: H)
        requires
            old(self).wf(),
        ensures
            final(self).wf(),
            final(self).ids() == old(self).ids().push((alias@, time)),
            final(self).handles() == old(self).handles().push(handle),
    {
        self.ids.push(PassFrom::new(alias, time));
        self.handles.push(handle);
        proof {
            assert(self.ids() =~= old(self).ids().push((alias@, time)));
        }
    }

    /// The position of the first producer registered under `from`'s identity.
    pub fn find(&self, from: &PassFrom) -> (r: Option<usize>)
        requires
            self.wf(),
        ensures
            r matches Some(i) ==> i < self.ids().len(),
            match r {
                Some(i) => first_match(self.ids(), from@) == Some(i as nat),
                None => first_match(self.ids(), from@) is None,
            },
    {
        let mut i: usize = 0;
        while i < self.ids.len()
            invariant
                i <= self.ids.len(),
                self.ids().len() == self.ids@.len(),
                forall|j: int| 0 <= j < i ==> self.ids()[j] != from@,
            decreases self.ids.len() - i,
        {
            if self.ids[i].same_as(from) {
                proof {
                    let ids = self.ids();
                    assert(ids[i as int] == from@);
                    let k = choose|k: int| 0 <= k < ids.len() && ids[k] == from@ && forall|j: int| 0 <= j < k ==> ids[j] != from@;
                    assert(k == i as int) by {
                        if k < i { } else if k > i { assert(ids[i as int] != from@); }
                    }
                }
                return Some(i);
            }
            i += 1;
        }
        None
    }

    /// The handle at position `i`.
    pub fn handle(&self, i: usize) -> (r: &H)
        requires
            self.wf(),
            i < self.ids().len(),
        ensures
            *r == self.handles()[i as int],
    {
        &self.handles[i]
    }
}

} // verus!
