//! The actor registry: the mapping from `ActorPath` to a live actor handle.
//!
//! The runtime stores heterogeneous actor handles; here each registered actor
//! is a record of its path, an explicit type tag, and an opaque handle value
//! (the embedding layer supplies the handle type and derives the tag from the
//! actor's static type). Recovery on lookup compares the tag before the
//! handle is handed back, so a lookup under the wrong type yields `None`
//! rather than a mis-typed handle.
//!
//! Invariant: no two live entries share a path; `create_entry` enforces it
//! atomically by checking and inserting in one exclusive operation.

use vstd::prelude::*;

use crate::errors::ActorError;
use crate::path::ActorPath;

verus! {

/// One live registration: a path, the actor's type tag, and the opaque
/// handle under which the embedding layer reaches the actor.
pub struct ActorEntry<H> {
    pub path: ActorPath,
    pub type_tag: u64,
    pub handle: H,
}

/// Registry of live actors, keyed by path.
pub struct Registry<H> {
    entries: Vec<ActorEntry<H>>,
}

impl<H> Registry<H> {
    /// The registered entries, in registration order.
    pub closed spec fn entries(&self) -> Seq<ActorEntry<H>> {
        self.entries@
    }

    /// No two live entries share a path.
    pub open spec fn wf(&self) -> bool {
        forall|i: int, j: int|
            0 <= i < self.entries().len() && 0 <= j < self.entries().len() && i != j
                ==> #[trigger] self.entries()[i].path@ != #[trigger] self.entries()[j].path@
    }

    /// Some live entry occupies path `p`.
    pub open spec fn has_path(&self, p: Seq<char>) -> bool {
        exists|i: int|
            0 <= i < self.entries().len() && #[trigger] self.entries()[i].path@ == p
    }

    /// Some live entry occupies path `p` under type tag `tag`.
    pub open spec fn has_entry(&self, p: Seq<char>, tag: u64) -> bool {
        exists|i: int|
            0 <= i < self.entries().len() && #[trigger] self.entries()[i].path@ == p
                && self.entries()[i].type_tag == tag
    }

    /// A `create` at path `p` is owed success exactly when no live entry
    /// occupies `p`.
    pub open spec fn create_would_succeed(&self, p: Seq<char>) -> bool {
        !self.has_path(p)
    }

    /// An empty registry.
    pub fn new() -> (r: Registry<H>)
        ensures
            r.entries() == Seq::<ActorEntry<H>>::empty(),
            r.wf(),
    {
        Registry { entries: Vec::new() }
    }

    /// Index of the entry at path `p`, if any.
    fn find_index(&self, path: &ActorPath) -> (r: Option<usize>)
        ensures
            match r {
                Some(i) => i < self.entries().len() && self.entries()[i as int].path@
                    == path@,
                None => !self.has_path(path@),
            },
    {
        let n = self.entries.len();
        for i in 0..n
            invariant
                n == self.entries().len(),
                forall|k: int| 0 <= k < i ==> #[trigger] self.entries()[k].path@ != path@,
        {
            if self.entries[i].path == *path {
                return Some(i);
            }
        }
        None
    }

    /// Atomic check-and-insert: registers `handle` at `path` under `tag`,
    /// unless the path is already occupied, in which case the registry is
    /// left unchanged and the caller gets `AlreadyExists`. Exactly one of
    /// two racing creators at the same path can take the success branch,
    /// because the check and the insert happen under one exclusive borrow.
    pub fn create_entry(&mut self, path: ActorPath, tag: u64, handle: H) -> (r: Result<
        (),
        ActorError,
    >)
        requires
            old(self).wf(),
        ensures
            final(self).wf(),
            old(self).has_path(path@) ==> r == Err::<(), ActorError>(ActorError::AlreadyExists)
                && final(self).entries() == old(self).entries(),
            !old(self).has_path(path@) ==> r == Ok::<(), ActorError>(()) && final(self).entries()
                == old(self).entries().push((ActorEntry { path, type_tag: tag, handle })),
    {
        if self.find_index(&path).is_some() {
            return Err(ActorError::AlreadyExists);
        }
        let ghost pre = self.entries();
        let ghost entry = ActorEntry { path, type_tag: tag, handle };
        self.entries.push(ActorEntry { path, type_tag: tag, handle });
        proof {
            assert(self.entries() == pre.push(entry));
            assert forall|i: int, j: int|
                0 <= i < self.entries().len() && 0 <= j < self.entries().len() && i != j implies #[trigger] self.entries()[i].path@
                != #[trigger] self.entries()[j].path@ by {
                if i == pre.len() as int {
                    assert(self.entries()[j].path@ == pre[j].path@);
                } else if j == pre.len() as int {
                    assert(self.entries()[i].path@ == pre[i].path@);
                } else {
                    assert(self.entries()[i].path@ == pre[i].path@);
                    assert(self.entries()[j].path@ == pre[j].path@);
                }
            }
        }
        Ok(())
    }

    /// Lookup with checked type recovery: the handle registered at `path`
    /// comes back only when its type tag matches the caller's `tag`; a
    /// missing path and a tag mismatch are both reported as `None`.
    pub fn get_entry(&self, path: &ActorPath, tag: u64) -> (r: Option<&H>)
        requires
            self.wf(),
        ensures
            match r {
                Some(h) => exists|i: int|
                    0 <= i < self.entries().len() && #[trigger] self.entries()[i].path@ == path@
                        && self.entries()[i].type_tag == tag && *h == self.entries()[i].handle,
                None => !self.has_entry(path@, tag),
            },
    {
        match self.find_index(path) {
            Some(i) => {
                let entry = &self.entries[i];
                if entry.type_tag == tag {
                    Some(&entry.handle)
                } else {
                    proof {
                        assert forall|k: int|
                            0 <= k < self.entries().len() && #[trigger] self.entries()[k].path@
                                == path@ implies self.entries()[k].type_tag != tag by {
                            assert(k == i as int);
                        }
                    }
                    None
                }
            },
            None => None,
        }
    }

    /// Removes the entry at `path`, if any; every other registration is
    /// kept, so after the call the path is free and nothing else changed.
    pub fn remove_entry(&mut self, path: &ActorPath)
        requires
            old(self).wf(),
        ensures
            final(self).wf(),
            !final(self).has_path(path@),
            old(self).has_path(path@) ==> exists|i: int|
                0 <= i < old(self).entries().len() && #[trigger] old(self).entries()[i].path@
                    == path@ && final(self).entries() == old(self).entries().remove(i),
            !old(self).has_path(path@) ==> final(self).entries() == old(self).entries(),
    {
        let ghost pre = self.entries();
        match self.find_index(path) {
            Some(i) => {
                self.entries.remove(i);
                proof {
                    assert(self.entries() == pre.remove(i as int));
                    assert forall|k: int|
                        0 <= k < self.entries().len() implies #[trigger] self.entries()[k].path@
                        != path@ by {
                        if k < i as int {
                            assert(self.entries()[k] == pre[k]);
                        } else {
                            assert(self.entries()[k] == pre[k + 1]);
                        }
                    }
                }
            },
            None => {},
        }
    }

    /// Number of live registrations.
    pub fn len(&self) -> (r: usize)
        ensures
            r == self.entries().len(),
    {
        self.entries.len()
    }
}

/// A path occupied by a live registration blocks a second `create` there,
/// and the blocked attempt leaves every existing registration — in
/// particular the original actor at that path — untouched; that is exactly
/// the `AlreadyExists` branch of `create_entry`'s contract. Conversely a
/// freshly created entry is itself visible afterwards.
pub proof fn lemma_created_path_is_occupied<H>(pre: Registry<H>, post: Registry<H>, e: ActorEntry<
    H,
>)
    requires
        post.entries() == pre.entries().push(e),
    ensures
        post.has_path(e.path@),
        !post.create_would_succeed(e.path@),
        forall|i: int|
            0 <= i < pre.entries().len() ==> #[trigger] post.entries()[i] == pre.entries()[i],
{
    assert(post.entries()[pre.entries().len() as int].path@ == e.path@);
    assert forall|i: int| 0 <= i < pre.entries().len() implies #[trigger] post.entries()[i]
        == pre.entries()[i] by {}
}

/// Path reusability: once `remove_entry` has run for a path, the path is
/// free again, so a fresh `create` at it is owed success — whether or not
/// the previous actor's task has fully wound down is independent of the
/// registry.
pub proof fn lemma_path_reusable_after_stop<H>(r: Registry<H>, p: Seq<char>)
    requires
        !r.has_path(p),
    ensures
        r.create_would_succeed(p),
{
}

} // verus!
