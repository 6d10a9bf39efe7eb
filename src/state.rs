use vstd::prelude::*;

verus! {

/// Counter value that marks the lock as held by a single writer.
///
/// Any other value is the number of readers holding the lock; `0` means free.
pub const WRITE_LOCKED: usize = usize::MAX;

/// The counter a shared-access request moves to from `observed`, or `None` when the request
/// must fail: a writer holds the lock, or one more reader would reach the writer sentinel.
pub fn next_reader_count(observed: usize) -> (r: Option<usize>)
    ensures
        r == if observed + 1 < WRITE_LOCKED {
            Some((observed + 1) as usize)
        } else {
            None::<usize>
        },
{
    if observed < WRITE_LOCKED - 1 {
        Some(observed + 1)
    } else {
        None
    }
}

/// The abstract state of a lock: its counter and the value it guards.
pub struct LockView<T> {
    pub readers: nat,
    pub data: T,
}

impl<T> LockView<T> {
    /// A fresh lock around `data`: free.
    pub open spec fn init(data: T) -> LockView<T> {
        LockView { readers: 0, data }
    }

    pub open spec fn is_free(self) -> bool {
        self.readers == 0
    }

    /// One or more readers, and no writer, hold the lock.
    pub open spec fn is_read_locked(self) -> bool {
        0 < self.readers < WRITE_LOCKED
    }

    /// A writer holds the lock.
    pub open spec fn is_write_locked(self) -> bool {
        self.readers == WRITE_LOCKED
    }

    /// One more reader fits: the count after it stays below the writer sentinel.
    pub open spec fn can_read(self) -> bool {
        self.readers + 1 < WRITE_LOCKED
    }

    /// A writer can enter: the lock is free.
    pub open spec fn can_write(self) -> bool {
        self.readers == 0
    }

    /// A reader can become the writer: it is the only reader.
    pub open spec fn can_upgrade(self) -> bool {
        self.readers == 1
    }

    /// The state after a shared-access request: one reader more if one fits, else unchanged.
    pub open spec fn read_attempted(self) -> LockView<T> {
        if self.can_read() {
            LockView { readers: self.readers + 1, ..self }
        } else {
            self
        }
    }

    /// The state after an exclusive-access request: write-locked if it was free, else unchanged.
    pub open spec fn write_attempted(self) -> LockView<T> {
        if self.can_write() {
            LockView { readers: WRITE_LOCKED as nat, ..self }
        } else {
            self
        }
    }

    /// The state after a reader asks to become the writer.
    pub open spec fn upgrade_attempted(self) -> LockView<T> {
        if self.can_upgrade() {
            LockView { readers: WRITE_LOCKED as nat, ..self }
        } else {
            self
        }
    }

    /// The state after one reader leaves.
    pub open spec fn read_released(self) -> LockView<T> {
        LockView { readers: (self.readers - 1) as nat, ..self }
    }

    /// The state after the writer leaves: free.
    pub open spec fn write_released(self) -> LockView<T> {
        LockView { readers: 0, ..self }
    }

    /// The state after the writer turns into the only reader.
    pub open spec fn downgraded(self) -> LockView<T> {
        LockView { readers: 1, ..self }
    }

    /// The state after the writer stores `data`.
    pub open spec fn written(self, data: T) -> LockView<T> {
        LockView { data, ..self }
    }

    /// The state after `k` shared-access requests in a row.
    pub open spec fn reads_attempted(self, k: nat) -> LockView<T>
        decreases k,
    {
        if k == 0 {
            self
        } else {
            self.reads_attempted((k - 1) as nat).read_attempted()
        }
    }
}

} // verus!
