//! A readers-writer lock that never blocks: a request for shared or unique access either
//! succeeds at once or fails, and the caller decides whether to try again.
mod laws;
mod lock;
mod state;

pub use laws::{
    lemma_acquired_modes_exclude, lemma_downgrade_sees_write, lemma_new_into_inner,
    lemma_one_writer, lemma_readers_exclude_writer, lemma_reads_until_sentinel,
    lemma_release_restores, lemma_upgrade_needs_sole_reader,
};
pub use lock::{ReadGuard, TryRwLock, WriteGuard};
pub use state::{next_reader_count, LockView, WRITE_LOCKED};
