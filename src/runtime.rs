use vstd::prelude::*;

use crate::library::{lookup, LibraryBucket, LibraryItem};
use crate::types::Descriptor;

verus! {

/// Where the runtime owned by a handle stands.
#[derive(Debug)]
pub enum RuntimeState<R, E> {
    Uninitialized,
    Loading,
    Ready(R),
    Failed(E),
}

/// A misuse of the runtime handle by its caller.
#[derive(Debug, Clone, Copy, PartialEq, Eq)]
pub enum LifecycleFault {
    AlreadyInitialized,
    NotReady,
}

/// Owns the runtime and guards its one-time initialization.
#[derive(Debug)]
pub struct RuntimeHandle<R, E> {
    state: RuntimeState<R, E>,
}

/// The user's profile: who they are and which providers they installed.
#[derive(Debug, Clone)]
pub struct Profile {
    pub uid: Option<String>,
    pub addons: Vec<Descriptor>,
}

/// What persistent storage held at startup.
#[derive(Debug, Clone)]
pub struct StoredState {
    pub profile: Option<Profile>,
    pub recent: Option<LibraryBucket>,
    pub full: Option<LibraryBucket>,
}

pub open spec fn state_after_begin<R, E>(s: RuntimeState<R, E>) -> RuntimeState<R, E> {
    match s {
        RuntimeState::Uninitialized => RuntimeState::Loading,
        _ => s,
    }
}

pub open spec fn begin_result<R, E>(s: RuntimeState<R, E>) -> Result<(), LifecycleFault> {
    match s {
        RuntimeState::Uninitialized => Ok(()),
        _ => Err(LifecycleFault::AlreadyInitialized),
    }
}

pub open spec fn state_after_finish<R, E>(outcome: Result<R, E>) -> RuntimeState<R, E> {
    match outcome {
        Ok(rt) => RuntimeState::Ready(rt),
        Err(e) => RuntimeState::Failed(e),
    }
}

/// Initialization happens at most once: once it has begun, and whether or not
/// it has finished, with success or with failure, another attempt faults.
pub proof fn initialization_is_once<R, E>(outcome: Result<R, E>)
    ensures
        begin_result(RuntimeState::<R, E>::Uninitialized) is Ok,
        begin_result(state_after_begin(RuntimeState::<R, E>::Uninitialized)) == Err::<
            (),
            LifecycleFault,
        >(LifecycleFault::AlreadyInitialized),
        begin_result(state_after_finish(outcome)) == Err::<(), LifecycleFault>(
            LifecycleFault::AlreadyInitialized,
        ),
        state_after_begin(state_after_finish(outcome)) == state_after_finish(outcome),
{
}

impl<R, E> RuntimeHandle<R, E> {
    /// Where the runtime stands; only the methods below change it.
    pub closed spec fn spec_state(&self) -> RuntimeState<R, E> {
        self.state
    }

    pub fn state(&self) -> (r: &RuntimeState<R, E>)
        ensures
            *r == self.spec_state(),
    {
        &self.state
    }

    /// A handle that holds no runtime yet.
    pub fn new() -> (r: Self)
        ensures
            r.spec_state() is Uninitialized,
    {
        RuntimeHandle { state: RuntimeState::Uninitialized }
    }

    /// Starts initialization; faults, leaving the handle as it was, when
    /// initialization has started before.
    pub fn begin_initialize(&mut self) -> (r: Result<(), LifecycleFault>)
        ensures
            r == begin_result(old(self).spec_state()),
            final(self).spec_state() == state_after_begin(old(self).spec_state()),
            r is Ok <==> old(self).spec_state() is Uninitialized,
    {
        match self.state {
            RuntimeState::Uninitialized => {
                self.state = RuntimeState::Loading;
                Ok(())
            },
            _ => Err(LifecycleFault::AlreadyInitialized),
        }
    }

    /// Records how initialization ended; the handle keeps that outcome for good.
    pub fn finish_initialize(&mut self, outcome: Result<R, E>)
        requires
            old(self).spec_state() is Loading,
        ensures
            final(self).spec_state() == state_after_finish(outcome),
    {
        self.state = match outcome {
            Ok(rt) => RuntimeState::Ready(rt),
            Err(e) => RuntimeState::Failed(e),
        };
    }

    /// Records a failed startup step, when `result` is one; tells whether startup goes on.
    pub fn after_step<T>(&mut self, result: Result<T, E>) -> (r: Option<T>)
        requires
            old(self).spec_state() is Loading,
        ensures
            match result {
                Ok(v) => r == Some(v) && final(self).spec_state() == old(self).spec_state(),
                Err(e) => r is None && final(self).spec_state() == RuntimeState::<R, E>::Failed(e),
            },
    {
        match result {
            Ok(v) => Some(v),
            Err(e) => {
                self.state = RuntimeState::Failed(e);
                None
            },
        }
    }

    /// The runtime, once it is ready.
    pub fn runtime(&self) -> (r: Result<&R, LifecycleFault>)
        ensures
            match self.spec_state() {
                RuntimeState::Ready(rt) => r == Ok::<&R, LifecycleFault>(&rt),
                _ => r == Err::<&R, LifecycleFault>(LifecycleFault::NotReady),
            },
    {
        match &self.state {
            RuntimeState::Ready(rt) => Ok(rt),
            _ => Err(LifecycleFault::NotReady),
        }
    }
}

impl Profile {
    /// The profile of a user who never signed in and installed nothing.
    pub fn anonymous() -> (r: Profile)
        ensures
            r.uid is None,
            r.addons@.len() == 0,
    {
        Profile { uid: None, addons: Vec::new() }
    }
}

/// What a stored bucket holds for `id`.
pub open spec fn bucket_entry(b: Option<LibraryBucket>, id: Seq<char>) -> Option<LibraryItem> {
    match b {
        Some(b) => lookup(b.items@, id),
        None => None,
    }
}

pub open spec fn stored_wf(s: StoredState) -> bool {
    &&& (s.recent matches Some(b) ==> b.wf())
    &&& (s.full matches Some(b) ==> b.wf())
}

/// The profile and library that the runtime starts from: the stored profile, or
/// an anonymous one; a library of that user, into which the recent bucket and
/// then the full bucket are merged, so that the full bucket wins on equal ids.
pub fn startup_state(stored: StoredState) -> (r: (Profile, LibraryBucket))
    requires
        stored_wf(stored),
    ensures
        r.1.wf(),
        r.1.uid == r.0.uid,
        match stored.profile {
            Some(p) => r.0 == p,
            None => r.0.uid is None && r.0.addons@.len() == 0,
        },
        forall|id: Seq<char>|
            lookup(r.1.items@, id) == match bucket_entry(stored.full, id) {
                Some(e) => Some(e),
                None => bucket_entry(stored.recent, id),
            },
{
    let profile = match stored.profile {
        Some(p) => p,
        None => Profile::anonymous(),
    };
    let mut library = LibraryBucket::new(profile.uid.clone());
    assert forall|id: Seq<char>| lookup(library.items@, id) is None by {}
    match &stored.recent {
        Some(b) => library.merge_bucket(b),
        None => {},
    }
    let ghost mid = library.items@;
    assert forall|id: Seq<char>| lookup(mid, id) == bucket_entry(stored.recent, id) by {
        if stored.recent is None {
            assert(mid.len() == 0);
        }
    }
    match &stored.full {
        Some(b) => library.merge_bucket(b),
        None => {},
    }
    (profile, library)
}

} // verus!
