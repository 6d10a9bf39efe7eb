use try_rwlock::{next_reader_count, ReadGuard, TryRwLock, WriteGuard, WRITE_LOCKED};

#[test]
fn test_read() {
    let mut lock = TryRwLock::new("Hello World!".to_owned());

    let guard_1 = lock.try_read().unwrap();
    let guard_2 = lock.try_read().unwrap();

    assert_eq!(guard_1.get(&lock), "Hello World!");
    assert_eq!(guard_2.get(&lock), "Hello World!");

    assert!(lock.try_write().is_none());
    let guard_1 = ReadGuard::try_upgrade(guard_1, &mut lock).err().unwrap();
    let guard_2 = ReadGuard::try_upgrade(guard_2, &mut lock).err().unwrap();

    guard_1.release(&mut lock);

    assert!(lock.try_write().is_none());
    let extra = lock.try_read();
    assert!(extra.is_some());
    extra.unwrap().release(&mut lock);
    let guard_2 = ReadGuard::try_upgrade(guard_2, &mut lock).ok().unwrap();
    assert!(lock.try_read().is_none());
    let guard_2 = WriteGuard::downgrade(guard_2, &mut lock);
    let extra = lock.try_read();
    assert!(extra.is_some());
    extra.unwrap().release(&mut lock);

    guard_2.release(&mut lock);
}

#[test]
fn test_write() {
    let mut lock = TryRwLock::new("Hello World!".to_owned());

    let guard = lock.try_write().unwrap();

    assert_eq!(guard.get(&lock), "Hello World!");
    *guard.get_mut(&mut lock) = "Foo".to_owned();
    assert_eq!(guard.get(&lock), "Foo");

    assert!(lock.try_read().is_none());
    assert!(lock.try_write().is_none());

    guard.release(&mut lock);

    let reader = lock.try_read().unwrap();
    assert_eq!(reader.get(&lock), "Foo");
    reader.release(&mut lock);
}

#[test]
fn two_readers_then_writer_replaces_value() {
    let mut lock = TryRwLock::new("Hello World!".to_owned());
    let r1 = lock.try_read().unwrap();
    let r2 = lock.try_read().unwrap();
    assert_eq!(r1.get(&lock), "Hello World!");
    assert_eq!(r2.get(&lock), "Hello World!");
    assert!(lock.try_write().is_none());
    r1.release(&mut lock);
    assert!(lock.try_write().is_none());
    r2.release(&mut lock);
    let w = lock.try_write().unwrap();
    *w.get_mut(&mut lock) = "Foo".to_owned();
    w.release(&mut lock);
    let r = lock.try_read().unwrap();
    assert_eq!(r.get(&lock), "Foo");
    r.release(&mut lock);
}

#[test]
fn second_writer_fails() {
    let mut lock = TryRwLock::new(1u32);
    let w = lock.try_write().unwrap();
    assert!(lock.try_write().is_none());
    assert!(lock.try_write().is_none());
    w.release(&mut lock);
    assert!(lock.try_write().is_some());
}

#[test]
fn writer_blocks_readers_until_released() {
    let mut lock = TryRwLock::new(1u32);
    let w = lock.try_write().unwrap();
    assert!(lock.try_read().is_none());
    assert!(lock.readable_data().is_none());
    w.release(&mut lock);
    assert_eq!(lock.readable_data(), Some(&1u32));
    let r = lock.try_read().unwrap();
    assert!(lock.try_write().is_none());
    r.release(&mut lock);
    assert!(lock.try_write().is_some());
}

#[test]
fn many_readers_then_release_one_by_one() {
    let mut lock = TryRwLock::new(0u8);
    let mut guards = Vec::new();
    for _ in 0..5 {
        guards.push(lock.try_read().unwrap());
    }
    for g in guards {
        assert!(lock.try_write().is_none());
        g.release(&mut lock);
    }
    assert!(lock.try_write().is_some());
}

#[test]
fn upgrade_of_sole_reader_succeeds() {
    let mut lock = TryRwLock::new(10i64);
    let r = lock.try_read().unwrap();
    let w = ReadGuard::try_upgrade(r, &mut lock).ok().unwrap();
    assert!(lock.try_read().is_none());
    assert!(lock.try_write().is_none());
    *w.get_mut(&mut lock) = 11;
    w.release(&mut lock);
    assert_eq!(lock.into_inner(), 11);
}

#[test]
fn failed_upgrade_keeps_read_access() {
    let mut lock = TryRwLock::new(vec![1u8, 2, 3]);
    let r1 = lock.try_read().unwrap();
    let r2 = lock.try_read().unwrap();
    let r1 = ReadGuard::try_upgrade(r1, &mut lock).err().unwrap();
    assert_eq!(r1.get(&lock), &vec![1u8, 2, 3]);
    assert!(lock.try_write().is_none());
    r2.release(&mut lock);
    r1.release(&mut lock);
    assert!(lock.try_write().is_some());
}

#[test]
fn downgrade_sees_last_write() {
    let mut lock = TryRwLock::new(String::from("a"));
    let w = lock.try_write().unwrap();
    *w.get_mut(&mut lock) = String::from("b");
    let r = WriteGuard::downgrade(w, &mut lock);
    assert_eq!(r.get(&lock), "b");
    assert!(lock.try_write().is_none());
    let r2 = lock.try_read().unwrap();
    r2.release(&mut lock);
    let w = ReadGuard::try_upgrade(r, &mut lock).ok().unwrap();
    w.release(&mut lock);
}

#[test]
fn new_then_into_inner_round_trip() {
    let lock = TryRwLock::new(String::from("Hello World!"));
    assert_eq!(lock.into_inner(), "Hello World!");
    let lock = TryRwLock::new(42u64);
    assert_eq!(lock.into_inner(), 42);
}

#[test]
fn get_mut_changes_value_directly() {
    let mut lock = TryRwLock::new(3u16);
    *lock.get_mut() += 4;
    let r = lock.try_read().unwrap();
    assert_eq!(*r.get(&lock), 7);
    r.release(&mut lock);
}

#[test]
fn sentinel_is_largest_counter() {
    assert_eq!(WRITE_LOCKED, usize::MAX);
}

#[test]
fn reader_count_stops_below_sentinel() {
    assert_eq!(next_reader_count(0), Some(1));
    assert_eq!(next_reader_count(1), Some(2));
    assert_eq!(next_reader_count(usize::MAX - 2), Some(usize::MAX - 1));
    assert_eq!(next_reader_count(usize::MAX - 1), None);
    assert_eq!(next_reader_count(usize::MAX), None);
}

#[test]
fn from_and_default_give_free_locks() {
    let mut lock = TryRwLock::from(9u8);
    let w = lock.try_write().unwrap();
    assert_eq!(*w.get(&lock), 9);
    w.release(&mut lock);

    let mut lock: TryRwLock<String> = TryRwLock::default();
    let w = lock.try_write().unwrap();
    assert_eq!(w.get(&lock), "");
    w.release(&mut lock);
}
