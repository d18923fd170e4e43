//! The actor system: the registry mapping each path to a live, type-tagged
//! actor handle, plus the event bus. The embedding layer shares one system
//! value behind a reader/writer lock, holds that lock only across the brief
//! check-and-insert or remove below (never across a wait on an actor), and
//! spawns one runner task per successfully created actor.
//!
//! The handle type `H` is opaque to the system: the embedding layer stores
//! whatever value lets it reach an actor's mailbox, together with a tag
//! derived from the actor's static type, and recovers it on lookup only
//! under the same tag.

use vstd::prelude::*;

use crate::bus::EventBus;
use crate::bus::EventConsumer;
use crate::bus::SystemEvent;
use crate::errors::ActorError;
use crate::path::ActorPath;
use crate::registry::ActorEntry;
use crate::registry::Registry;

verus! {

/// A named actor registry with its event bus.
#[verifier::reject_recursive_types(E)]
pub struct ActorSystem<E: SystemEvent, H> {
    name: String,
    registry: Registry<H>,
    bus: EventBus<E>,
}

impl<E: SystemEvent, H> ActorSystem<E, H> {
    /// The system's name.
    pub closed spec fn name(&self) -> Seq<char> {
        self.name@
    }

    /// The live registrations, in registration order.
    pub closed spec fn entries(&self) -> Seq<ActorEntry<H>> {
        self.registry.entries()
    }

    /// Events the bus has accepted for delivery so far.
    pub closed spec fn events_log(&self) -> Seq<E> {
        self.bus.log()
    }

    /// Some live actor occupies path `p`.
    pub closed spec fn has_path(&self, p: Seq<char>) -> bool {
        self.registry.has_path(p)
    }

    /// Some live actor occupies path `p` under type tag `tag`.
    pub closed spec fn has_entry(&self, p: Seq<char>, tag: u64) -> bool {
        self.registry.has_entry(p, tag)
    }

    /// No two live actors share a path.
    pub closed spec fn wf(&self) -> bool {
        self.registry.wf()
    }

    /// Builds a system with the given name and event bus; its registry
    /// starts empty.
    pub fn new(name: &str, bus: EventBus<E>) -> (r: ActorSystem<E, H>)
        ensures
            r.name() == name@,
            r.entries() == Seq::<ActorEntry<H>>::empty(),
            r.events_log() == bus.log(),
            r.wf(),
    {
        ActorSystem { name: name.to_owned(), registry: Registry::new(), bus }
    }

    /// The system's name as a string slice.
    pub fn get_name(&self) -> (r: &str)
        ensures
            r@ == self.name(),
    {
        self.name.as_str()
    }

    /// Best-effort broadcast: the event reaches every live subscriber's
    /// buffer, or is silently dropped when there is none; the publisher is
    /// never blocked behind a subscriber and never sees a failure.
    pub fn publish(&mut self, event: E)
        ensures
            final(self).events_log() == old(self).events_log().push(event)
                || final(self).events_log() == old(self).events_log(),
            final(self).entries() == old(self).entries(),
            final(self).name() == old(self).name(),
            final(self).wf() == old(self).wf(),
    {
        let _ = self.bus.send(event);
    }

    /// Opens an independent, forward-only subscription: it observes only
    /// events published strictly after this call.
    pub fn events(&self) -> (c: EventConsumer<E>)
        ensures
            c.start() == self.events_log().len(),
            c.pos() == c.start(),
            c.wf(),
    {
        self.bus.subscribe()
    }

    /// Looks up the actor at `path` and recovers its handle only when the
    /// registration carries the caller's type tag. A missing path and a
    /// registration under a different tag are both answered with `None` —
    /// a type mismatch is deliberately indistinguishable from absence.
    pub fn get_actor(&self, path: &ActorPath, type_tag: u64) -> (r: Option<&H>)
        requires
            self.wf(),
        ensures
            match r {
                Some(h) => exists|i: int|
                    0 <= i < self.entries().len() && #[trigger] self.entries()[i].path@ == path@
                        && self.entries()[i].type_tag == type_tag && *h == self.entries()[i].handle,
                None => !self.has_entry(path@, type_tag),
            },
    {
        let r = self.registry.get_entry(path, type_tag);
        proof {
            match r {
                Some(h) => {
                    let i = choose|i: int|
                        0 <= i < self.registry.entries().len()
                            && #[trigger] self.registry.entries()[i].path@ == path@
                            && self.registry.entries()[i].type_tag == type_tag && *h
                            == self.registry.entries()[i].handle;
                    assert(self.entries()[i].path@ == path@);
                },
                None => {},
            }
        }
        r
    }

    /// Atomically checks and registers: the handle is stored at `path`
    /// under `type_tag` exactly when no live actor occupies the path;
    /// an occupied path is answered with `AlreadyExists` and leaves every
    /// registration — in particular the occupant — untouched. The caller
    /// starts the actor's runner task only after success.
    pub fn create_actor(&mut self, path: ActorPath, type_tag: u64, handle: H) -> (r: Result<
        (),
        ActorError,
    >)
        requires
            old(self).wf(),
        ensures
            final(self).wf(),
            final(self).name() == old(self).name(),
            final(self).events_log() == old(self).events_log(),
            old(self).has_path(path@) ==> r == Err::<(), ActorError>(ActorError::AlreadyExists)
                && final(self).entries() == old(self).entries(),
            !old(self).has_path(path@) ==> r == Ok::<(), ActorError>(()) && final(self).entries()
                == old(self).entries().push((ActorEntry { path, type_tag, handle })),
    {
        self.registry.create_entry(path, type_tag, handle)
    }

    /// Removes the registration at `path`, if any; afterwards the path is
    /// free for a fresh `create_actor`, and every other registration is
    /// kept. Outstanding handle clones held elsewhere are not revoked, so
    /// the actor's runner may wind down asynchronously.
    pub fn stop_actor(&mut self, path: &ActorPath)
        requires
            old(self).wf(),
        ensures
            final(self).wf(),
            final(self).name() == old(self).name(),
            final(self).events_log() == old(self).events_log(),
            !final(self).has_path(path@),
            old(self).has_path(path@) ==> exists|i: int|
                0 <= i < old(self).entries().len() && #[trigger] old(self).entries()[i].path@
                    == path@ && final(self).entries() == old(self).entries().remove(i),
            !old(self).has_path(path@) ==> final(self).entries() == old(self).entries(),
    {
        let ghost pre = self.registry;
        self.registry.remove_entry(path);
        proof {
            if pre.has_path(path@) {
                let i = choose|i: int|
                    0 <= i < pre.entries().len() && #[trigger] pre.entries()[i].path@ == path@
                        && self.registry.entries() == pre.entries().remove(i);
                assert(old(self).entries()[i].path@ == path@);
            }
        }
    }

    /// Number of live registrations.
    pub fn actor_count(&self) -> (r: usize)
        ensures
            r == self.entries().len(),
    {
        self.registry.len()
    }
}

} // verus!
