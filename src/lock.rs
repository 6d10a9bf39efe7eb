use vstd::prelude::*;

use crate::state::{next_reader_count, LockView, WRITE_LOCKED};

verus! {

/// A readers-writer lock that never waits: each request succeeds or fails at once.
///
/// One counter decides the mode: `0` is free, `1..WRITE_LOCKED` counts the readers, and
/// `WRITE_LOCKED` marks a writer. Access goes through guard tokens, which are handed out by
/// successful requests and handed back to release the lock. A guard holds no reference to its
/// lock: each guard operation takes the lock as an argument, and its contract requires the
/// lock to be in the mode that the guard stands for.
pub struct TryRwLock<T> {
    readers: usize,
    data: T,
}

/// Proof of shared read access to a [`TryRwLock`].
pub struct ReadGuard {
    _token: (),
}

/// Proof of unique write access to a [`TryRwLock`].
pub struct WriteGuard {
    _token: (),
}

impl<T> View for TryRwLock<T> {
    type V = LockView<T>;

    closed spec fn view(&self) -> LockView<T> {
        LockView { readers: self.readers as nat, data: self.data }
    }
}

impl<T> TryRwLock<T> {
    /// Create a new, free lock around `data`.
    pub fn new(data: T) -> (r: Self)
        ensures
            r@ == LockView::init(data),
    {
        TryRwLock { readers: 0, data }
    }

    /// Attempt to lock with shared read access.
    ///
    /// Fails while a writer holds the lock, and when one more reader would bring the count to
    /// the writer sentinel.
    pub fn try_read(&mut self) -> (r: Option<ReadGuard>)
        ensures
            r is Some <==> old(self)@.can_read(),
            final(self)@ == old(self)@.read_attempted(),
    {
        match next_reader_count(self.readers) {
            Some(n) => {
                self.readers = n;
                Some(ReadGuard { _token: () })
            },
            None => None,
        }
    }

    /// Attempt to lock with unique write access: succeeds only when the lock is free.
    pub fn try_write(&mut self) -> (r: Option<WriteGuard>)
        ensures
            r is Some <==> old(self)@.can_write(),
            final(self)@ == old(self)@.write_attempted(),
    {
        if self.readers == 0 {
            self.readers = WRITE_LOCKED;
            Some(WriteGuard { _token: () })
        } else {
            None
        }
    }

    /// Take the value out of the lock.
    pub fn into_inner(self) -> (r: T)
        ensures
            r == self@.data,
    {
        self.data
    }

    /// Reach the value directly: owning the lock mutably excludes every other access.
    pub fn get_mut(&mut self) -> (r: &mut T)
        ensures
            *r == old(self)@.data,
            final(self)@ == old(self)@.written(*final(r)),
    {
        &mut self.data
    }

    /// The value, if the lock could be taken for reading now; the lock is left as it was.
    pub fn readable_data(&self) -> (r: Option<&T>)
        ensures
            r is Some <==> self@.can_read(),
            r is Some ==> *r->0 == self@.data,
    {
        if next_reader_count(self.readers).is_some() {
            Some(&self.data)
        } else {
            None
        }
    }
}

impl<T> From<T> for TryRwLock<T> {
    fn from(data: T) -> (r: Self)
        ensures
            r@ == LockView::init(data),
    {
        Self::new(data)
    }
}

impl<T> vstd::std_specs::convert::FromSpecImpl<T> for TryRwLock<T> {
    open spec fn obeys_from_spec() -> bool {
        true
    }

    closed spec fn from_spec(data: T) -> Self {
        TryRwLock { readers: 0, data }
    }
}

impl<T: Default> Default for TryRwLock<T> {
    /// A free lock around `T`'s default value.
    fn default() -> (r: Self)
        ensures
            r@.is_free(),
    {
        Self::new(T::default())
    }
}

impl ReadGuard {
    /// Read the value of the lock this guard was taken from.
    pub fn get<'a, T>(&self, lock: &'a TryRwLock<T>) -> (r: &'a T)
        requires
            lock@.is_read_locked(),
        ensures
            *r == lock@.data,
    {
        &lock.data
    }

    /// Attempt to turn this guard into a write guard: succeeds only for the sole reader.
    ///
    /// On failure the guard comes back and still gives read access.
    pub fn try_upgrade<T>(guard: Self, lock: &mut TryRwLock<T>) -> (r: Result<WriteGuard, ReadGuard>)
        requires
            old(lock)@.is_read_locked(),
        ensures
            r is Ok <==> old(lock)@.can_upgrade(),
            final(lock)@ == old(lock)@.upgrade_attempted(),
    {
        if lock.readers == 1 {
            lock.readers = WRITE_LOCKED;
            Ok(WriteGuard { _token: () })
        } else {
            Err(guard)
        }
    }

    /// Give up shared access: the count of readers drops by one.
    pub fn release<T>(self, lock: &mut TryRwLock<T>)
        requires
            old(lock)@.is_read_locked(),
        ensures
            final(lock)@ == old(lock)@.read_released(),
    {
        lock.readers = lock.readers - 1;
    }
}

impl WriteGuard {
    /// Read the value of the lock this guard was taken from.
    pub fn get<'a, T>(&self, lock: &'a TryRwLock<T>) -> (r: &'a T)
        requires
            lock@.is_write_locked(),
        ensures
            *r == lock@.data,
    {
        &lock.data
    }

    /// Reach the value of the lock this guard was taken from, to change it.
    pub fn get_mut<'a, T>(&self, lock: &'a mut TryRwLock<T>) -> (r: &'a mut T)
        requires
            old(lock)@.is_write_locked(),
        ensures
            *r == old(lock)@.data,
            final(lock)@ == old(lock)@.written(*final(r)),
    {
        &mut lock.data
    }

    /// Turn this guard into a read guard; the writer becomes the only reader.
    pub fn downgrade<T>(_guard: Self, lock: &mut TryRwLock<T>) -> (r: ReadGuard)
        requires
            old(lock)@.is_write_locked(),
        ensures
            final(lock)@ == old(lock)@.downgraded(),
    {
        lock.readers = 1;
        ReadGuard { _token: () }
    }

    /// Give up unique access: the lock becomes free.
    pub fn release<T>(self, lock: &mut TryRwLock<T>)
        requires
            old(lock)@.is_write_locked(),
        ensures
            final(lock)@ == old(lock)@.write_released(),
    {
        lock.readers = 0;
    }
}

} // verus!
