use std::sync::atomic::{AtomicU64, Ordering};

use diskcache::keeper::KeeperBuilder;
use diskcache::shards::Shards;

#[test]
fn builder_defaults() {
    let b = KeeperBuilder::new("/tmp/cache-root".to_owned());
    assert_eq!(b.path, "/tmp/cache-root");
    assert_eq!(b.cleanup_interval_secs, 3600);
    assert_eq!(b.store_workers, 1);
}

#[test]
fn builder_overrides_and_worker_clamp() {
    let b = KeeperBuilder::new("r".to_owned())
        .with_cleanup_interval(60)
        .with_store_workers(4);
    assert_eq!(b.cleanup_interval_secs, 60);
    assert_eq!(b.store_workers, 4);
    let b = KeeperBuilder::new("r".to_owned()).with_store_workers(0);
    assert_eq!(b.store_workers, 1);
}

#[test]
fn write_lock_excludes_other_acquisitions_on_its_shard_only() {
    let shards = Shards::new();
    let held = shards.write(7);
    // The janitor-style non-blocking attempt must skip the busy shard...
    assert!(shards.try_write(7).is_none());
    assert!(shards.try_read(7).is_none());
    // ...and still make progress on any other shard.
    assert!(shards.try_write(8).is_some());
    assert!(shards.try_read(4095).is_some());
    drop(held);
    assert!(shards.try_write(7).is_some());
}

#[test]
fn read_locks_are_shared() {
    let shards = Shards::new();
    let first = shards.read(3);
    assert!(shards.try_read(3).is_some());
    assert!(shards.try_write(3).is_none());
    drop(first);
    assert!(shards.try_write(3).is_some());
}

#[test]
fn write_all_holds_every_shard() {
    let shards = Shards::new();
    let guards = shards.write_all();
    assert_eq!(guards.len(), 4096);
    assert!(shards.try_read(0).is_none());
    assert!(shards.try_write(2048).is_none());
    assert!(shards.try_write(4095).is_none());
    drop(guards);
    assert!(shards.try_write(0).is_some());
}

#[test]
fn clones_share_the_same_locks() {
    let shards = Shards::new();
    let other = shards.clone();
    let held = shards.write(11);
    assert!(other.try_write(11).is_none());
    drop(held);
    assert!(other.try_write(11).is_some());
}

#[test]
fn same_shard_writers_are_serialized_across_threads() {
    // Non-atomic read-modify-write on a shared counter, protected only by
    // one shard's write lock: the total is exact only if writers exclude
    // each other.
    let shards = Shards::new();
    let counter = AtomicU64::new(0);
    let threads = 8u64;
    let rounds = 200u64;
    crossbeam::scope(|s| {
        for _ in 0..threads {
            let shards = shards.clone();
            let counter = &counter;
            s.spawn(move |_| {
                for _ in 0..rounds {
                    let guard = shards.write(42);
                    let seen = counter.load(Ordering::SeqCst);
                    counter.store(seen + 1, Ordering::SeqCst);
                    drop(guard);
                }
            });
        }
    })
    .unwrap();
    assert_eq!(counter.load(Ordering::SeqCst), threads * rounds);
}

#[test]
fn busy_shard_never_blocks_a_sweep_attempt() {
    // A writer camps on one shard while another thread sweeps all shards
    // with non-blocking attempts: the sweep finishes (no deadlock) and only
    // the busy shard is skipped.
    let shards = Shards::new();
    let held = shards.write(100);
    let skipped = crossbeam::scope(|s| {
        let shards = shards.clone();
        s.spawn(move |_| {
            let mut skipped = 0u32;
            for id in 0..4096u16 {
                match shards.try_write(id) {
                    Some(guard) => drop(guard),
                    None => skipped += 1,
                }
            }
            skipped
        })
        .join()
        .unwrap()
    })
    .unwrap();
    drop(held);
    assert_eq!(skipped, 1);
}
