//! The persistence contract the engine consumes, and a reference in-memory
//! implementation of it.
//!
//! The ordered event log is the sole durable state of a session. The store
//! must append atomically and read back exactly what was appended, in
//! order; the engine treats any storage error as fatal to the current
//! operation and never retries persistence itself.

use vstd::prelude::*;

use crate::error::ForeignError;
use crate::event::{events_view, SessionEvent, SessionEventV};

verus! {

/// An append-only store of session events, implemented by the host
/// application.
pub trait SessionPersister: Sized {
    /// The events stored so far, oldest first.
    spec fn events(&self) -> Seq<SessionEventV>;

    /// Appends one event to the log. Either the event is durably appended,
    /// or the store reports an error and the log is unchanged.
    fn save_event(&mut self, event: SessionEvent) -> (r: Result<(), ForeignError>)
        ensures
            r is Ok ==> final(self).events() == old(self).events().push(event@),
            r is Err ==> final(self).events() == old(self).events(),
    ;

    /// Reads the whole log back, in append order.
    fn load(&self) -> (r: Result<Vec<SessionEvent>, ForeignError>)
        ensures
            r matches Result::Ok(events) ==> events_view(events@) == self.events(),
    ;

    /// Releases the store. The log itself stays as it is.
    fn close(&mut self) -> (r: Result<(), ForeignError>)
        ensures
            final(self).events() == old(self).events(),
    ;
}

/// A session event store kept in memory: the reference implementation of
/// the persistence contract, and the store the tests run against. Setting
/// `failing` makes every append report an error, the way a broken disk
/// would, without touching the log.
pub struct InMemoryPersister {
    pub log: Vec<SessionEvent>,
    pub failing: bool,
}

impl InMemoryPersister {
    /// An empty, working store.
    pub fn new() -> (r: InMemoryPersister)
        ensures
            r.events() == Seq::<SessionEventV>::empty(),
            !r.failing,
    {
        let r = InMemoryPersister { log: Vec::new(), failing: false };
        proof {
            assert(events_view(r.log@) =~= Seq::<SessionEventV>::empty());
        }
        r
    }
}

impl SessionPersister for InMemoryPersister {
    open spec fn events(&self) -> Seq<SessionEventV> {
        events_view(self.log@)
    }

    fn save_event(&mut self, event: SessionEvent) -> (r: Result<(), ForeignError>) {
        if self.failing {
            return Result::Err(ForeignError { message: "the store is failing".to_owned() });
        }
        self.log.push(event);
        proof {
            assert(events_view(self.log@) =~= events_view(old(self).log@).push(
                self.log@.last()@));
        }
        Result::Ok(())
    }

    fn load(&self) -> (r: Result<Vec<SessionEvent>, ForeignError>) {
        let mut out: Vec<SessionEvent> = Vec::new();
        let mut i: usize = 0;
        while i < self.log.len()
            invariant
                i <= self.log@.len(),
                out@.len() == i,
                forall|j: int| 0 <= j < i ==> out@[j]@ == self.log@[j]@,
            decreases self.log@.len() - i,
        {
            out.push(self.log[i].duplicate());
            i = i + 1;
        }
        proof {
            assert(events_view(out@) =~= events_view(self.log@));
        }
        Result::Ok(out)
    }

    fn close(&mut self) -> (r: Result<(), ForeignError>) {
        Result::Ok(())
    }
}

} // verus!
