use vstd::prelude::*;

use crate::state::{LockView, WRITE_LOCKED};

verus! {

/// Shared-access requests in a row, with no writer present, all succeed until one more
/// reader would bring the count to the writer sentinel; from then on each one fails and
/// leaves the lock as it is.
pub proof fn lemma_reads_until_sentinel<T>(s: LockView<T>, k: nat)
    requires
        s.readers < WRITE_LOCKED,
    ensures
        s.reads_attempted(k).readers == if s.readers + k < WRITE_LOCKED - 1 {
            s.readers + k
        } else {
            (WRITE_LOCKED - 1) as nat
        },
        s.reads_attempted(k).data == s.data,
        s.reads_attempted(k).can_read() <==> s.readers + k + 1 < WRITE_LOCKED,
    decreases k,
{
    if k > 0 {
        lemma_reads_until_sentinel(s, (k - 1) as nat);
    }
}

/// Once an exclusive-access request has succeeded, a second one fails and changes nothing.
pub proof fn lemma_one_writer<T>(s: LockView<T>)
    requires
        s.can_write(),
    ensures
        s.write_attempted().is_write_locked(),
        !s.write_attempted().can_write(),
        s.write_attempted().write_attempted() == s.write_attempted(),
{
}

/// While a reader holds the lock no writer gets in, and while a writer holds it no reader
/// gets in; the failed request leaves the lock as it is.
pub proof fn lemma_readers_exclude_writer<T>(s: LockView<T>)
    ensures
        s.is_read_locked() ==> !s.can_write() && s.write_attempted() == s,
        s.is_write_locked() ==> !s.can_read() && s.read_attempted() == s,
{
}

/// A successful shared-access request shuts writers out, and a successful exclusive-access
/// request shuts readers out.
pub proof fn lemma_acquired_modes_exclude<T>(s: LockView<T>)
    ensures
        s.can_read() ==> !s.read_attempted().can_write(),
        s.can_write() ==> !s.write_attempted().can_read(),
{
}

/// A reader becomes the writer exactly when it is the only reader; otherwise the lock stays
/// read-locked as it was, so the reader keeps its access.
pub proof fn lemma_upgrade_needs_sole_reader<T>(s: LockView<T>)
    requires
        s.is_read_locked(),
    ensures
        s.can_upgrade() <==> s.readers == 1,
        s.can_upgrade() ==> s.upgrade_attempted().is_write_locked(),
        !s.can_upgrade() ==> s.upgrade_attempted() == s && s.upgrade_attempted().is_read_locked(),
{
}

/// After a writer stores a value and downgrades, the lock has exactly one reader, and it sees
/// that value.
pub proof fn lemma_downgrade_sees_write<T>(s: LockView<T>, v: T)
    requires
        s.is_write_locked(),
    ensures
        s.written(v).downgraded().is_read_locked(),
        s.written(v).downgraded().readers == 1,
        s.written(v).downgraded().data == v,
{
}

/// Releasing a guard lets the matching request succeed again: one reader fewer after a reader
/// leaves (free after the last one), and a free lock after the writer leaves.
pub proof fn lemma_release_restores<T>(s: LockView<T>)
    ensures
        s.is_read_locked() ==> s.read_released().readers == s.readers - 1
            && s.read_released().can_read() && s.read_released().data == s.data,
        s.is_read_locked() && s.readers == 1 ==> s.read_released().is_free()
            && s.read_released().can_write(),
        s.is_write_locked() ==> s.write_released().is_free() && s.write_released().can_write()
            && s.write_released().can_read() && s.write_released().data == s.data,
{
}

/// A lock that is created around a value and taken apart at once gives that value back.
pub proof fn lemma_new_into_inner<T>(v: T)
    ensures
        LockView::init(v).data == v,
        LockView::init(v).is_free(),
{
}

} // verus!
