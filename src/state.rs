//! The registry shared by the owning test and every connection.
use vstd::prelude::*;
use vstd::rwlock::{ReadHandle, RwLock, RwLockPredicate, WriteHandle};

use crate::mock::{mock_wf, Mock, Then};
use crate::mock_set::MockSet;
use crate::request::Request;

verus! {

/// What the lock guards: a well-formed registry.
pub struct WellFormed;

impl RwLockPredicate<MockSet> for WellFormed {
    open spec fn inv(self, v: MockSet) -> bool {
        v.wf()
    }
}

/// Exclusive access to the live registry. While it is held no selection,
/// insertion or inspection runs; what `release` puts back is what every later
/// dispatch sees. It must be released: dropping it keeps the lock held.
pub struct MocksGuard<'a> {
    set: MockSet,
    handle: WriteHandle<'a, MockSet, WellFormed>,
}

impl<'a> MocksGuard<'a> {
    /// The guard can put back what it holds: the registry is well formed.
    pub closed spec fn wf(&self) -> bool {
        self.handle.rwlock().pred() == WellFormed && self.set.wf()
    }

    /// The registry held by the guard.
    pub closed spec fn registry(&self) -> MockSet {
        self.set
    }

    /// The lock the guard holds exclusively.
    pub closed spec fn lock(&self) -> RwLock<MockSet, WellFormed> {
        self.handle.rwlock()
    }

    /// The live registry.
    pub fn get(&self) -> (r: &MockSet)
        requires
            self.wf(),
        ensures
            *r == self.registry(),
            r.wf(),
    {
        &self.set
    }

    /// Appends a mock to the live registry.
    pub fn insert(&mut self, mock: Mock)
        requires
            old(self).wf(),
            mock_wf(mock),
        ensures
            final(self).wf(),
            final(self).registry().mocks@ == old(self).registry().mocks@.push(mock),
    {
        self.set.insert(mock);
    }

    /// Replaces the whole live registry.
    pub fn replace(&mut self, mocks: MockSet)
        requires
            old(self).wf(),
            mocks.wf(),
        ensures
            final(self).wf(),
            final(self).registry() == mocks,
    {
        self.set = mocks;
    }

    /// Puts the registry back and releases the lock.
    pub fn release(self)
        requires
            self.wf(),
    {
        let MocksGuard { set, handle } = self;
        handle.release_write(set);
    }
}

/// Shared access to the live registry: other readers may hold it at once,
/// writers wait. It must be released: dropping it keeps the lock held.
pub struct MocksReadGuard<'a> {
    handle: ReadHandle<'a, MockSet, WellFormed>,
}

impl<'a> MocksReadGuard<'a> {
    /// The guard reads from a lock that holds only well-formed registries.
    pub closed spec fn wf(&self) -> bool {
        self.handle.rwlock().pred() == WellFormed && self.handle.view().wf()
    }

    /// The registry being read.
    pub closed spec fn registry(&self) -> MockSet {
        self.handle.view()
    }

    /// The lock the guard holds shared.
    pub closed spec fn lock(&self) -> RwLock<MockSet, WellFormed> {
        self.handle.rwlock()
    }

    /// The live registry.
    pub fn get(&self) -> (r: &MockSet)
        requires
            self.wf(),
        ensures
            *r == self.registry(),
            r.wf(),
    {
        self.handle.borrow()
    }

    /// Releases the shared access.
    pub fn release(self) {
        self.handle.release_read();
    }
}

/// Mock server state: sole owner of one registry, behind a reader/writer lock.
/// Every selection and every insertion holds the lock exclusively for the
/// in-memory step only; inspection holds it shared.
pub struct MockServerState {
    mocks: RwLock<MockSet, WellFormed>,
}

impl MockServerState {
    /// The lock that guards this state's registry.
    pub closed spec fn lock(&self) -> RwLock<MockSet, WellFormed> {
        self.mocks
    }

    #[verifier::type_invariant]
    spec fn lock_guards_wf(&self) -> bool {
        self.mocks.pred() == WellFormed
    }

    pub fn new(mocks: MockSet) -> (r: MockServerState)
        requires
            mocks.wf(),
    {
        MockServerState { mocks: RwLock::new(mocks, Ghost(WellFormed)) }
    }

    /// A state with no mocks.
    pub fn empty() -> (r: MockServerState) {
        MockServerState::new(MockSet::new())
    }

    /// Shared access to the live registry, until the guard is released.
    pub fn mocks(&self) -> (r: MocksReadGuard<'_>)
        ensures
            r.wf(),
            r.lock() == self.lock(),
    {
        proof {
            use_type_invariant(self);
        }
        MocksReadGuard { handle: self.mocks.acquire_read() }
    }

    /// Exclusive access to the live registry, until the guard is released.
    pub fn write(&self) -> (r: MocksGuard<'_>)
        ensures
            r.wf(),
            r.lock() == self.lock(),
    {
        proof {
            use_type_invariant(self);
        }
        let (set, handle) = self.mocks.acquire_write();
        MocksGuard { set, handle }
    }

    /// The hit counter of each mock, in insertion order, read under shared access.
    pub fn hits(&self) -> (r: Vec<usize>) {
        proof {
            use_type_invariant(self);
        }
        let handle = self.mocks.acquire_read();
        let hits = handle.borrow().hits();
        handle.release_read();
        hits
    }

    /// Appends a mock under exclusive access.
    pub fn insert(&self, mock: Mock)
        requires
            mock_wf(mock),
    {
        proof {
            use_type_invariant(self);
        }
        let (mut set, handle) = self.mocks.acquire_write();
        set.insert(mock);
        handle.release_write(set);
    }

    /// Replaces the whole registry under exclusive access.
    pub fn replace(&self, mocks: MockSet)
        requires
            mocks.wf(),
    {
        proof {
            use_type_invariant(self);
        }
        let (_old, handle) = self.mocks.acquire_write();
        handle.release_write(mocks);
    }

    /// Serves one request: selection and consumption run as one step under
    /// exclusive access, so a bounded mock is never over-consumed.
    pub fn respond(&self, r: &Request) -> (resp: Then) {
        proof {
            use_type_invariant(self);
        }
        let (mut set, handle) = self.mocks.acquire_write();
        let resp = set.respond(r);
        handle.release_write(set);
        resp
    }
}

} // verus!
