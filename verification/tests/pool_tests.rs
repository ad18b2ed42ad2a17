use safa_buffer_pool::BufferPoolBuilder;

#[test]
fn big_pool() {
    //10Mo Pool (1024 buffer of 10Ko)
    let _pool = BufferPoolBuilder::new()
        .set_buffer_size(10240)
        .set_min_number_of_buffer(1024)
        .build_mono_thread();
}

#[test]
fn builder_defaults_and_setters() {
    let builder = BufferPoolBuilder::new();
    assert_eq!(builder.max_nb_buffer, 1024);
    assert_eq!(builder.min_nb_buffer, 1024);
    assert_eq!(builder.buffer_size, 10240);
    assert!(builder.over_buffer_lifetime_opt.is_none());

    let builder = builder
        .set_buffer_size(512)
        .set_over_buffer_lifetime(std::time::Duration::from_secs(2));
    assert_eq!(builder.buffer_size, 512);
    assert_eq!(
        builder.over_buffer_lifetime_opt,
        Some(std::time::Duration::from_secs(2))
    );
}

#[test]
fn builder_min_dominates_max() {
    let builder = BufferPoolBuilder::new()
        .set_max_number_of_buffer(10)
        .set_min_number_of_buffer(50);
    assert_eq!(builder.max_nb_buffer, 50);
    assert_eq!(builder.min_nb_buffer, 50);
}

#[test]
fn mono_pool_starts_at_the_floor() {
    let mut pool = BufferPoolBuilder::new()
        .set_buffer_size(16)
        .set_min_number_of_buffer(3)
        .set_max_number_of_buffer(5)
        .build_mono_thread();
    assert_eq!(pool.total_buffer_count(), 3);
    assert_eq!(pool.available_buffer_count(), 3);
    assert_eq!(pool.low_water_mark(), 3);
    assert_eq!(pool.buffer_byte_size(), 16);
    let guard = pool.get().expect("a pre-allocated buffer");
    assert_eq!(guard.len(), 16);
    pool.free(guard);
}

#[test]
fn mono_pool_fresh_buffers_are_zero_filled() {
    let mut pool = BufferPoolBuilder::new()
        .set_buffer_size(4)
        .set_min_number_of_buffer(0)
        .set_max_number_of_buffer(2)
        .build_mono_thread();
    assert_eq!(pool.available_buffer_count(), 0);
    let guard = pool.get().expect("a freshly allocated buffer");
    assert_eq!(pool.total_buffer_count(), 1);
    assert_eq!(guard.len(), 4);
    for i in 0..4 {
        assert_eq!(guard.read_byte(i), 0);
    }
    pool.free(guard);
}

#[test]
fn mono_pool_exhaustion_and_recovery() {
    let mut pool = BufferPoolBuilder::new()
        .set_buffer_size(8)
        .set_min_number_of_buffer(1)
        .set_max_number_of_buffer(1)
        .build_mono_thread();
    let first = pool.get().expect("the only buffer");
    assert!(pool.get().is_none());
    pool.free(first);
    let again = pool.get().expect("the returned buffer");
    pool.free(again);
}

#[test]
fn mono_pool_round_trip_reuses_storage() {
    let mut pool = BufferPoolBuilder::new()
        .set_buffer_size(8)
        .set_min_number_of_buffer(1)
        .set_max_number_of_buffer(2)
        .build_mono_thread();
    let mut guard = pool.get().expect("a buffer");
    assert_eq!(guard.len(), 8);
    for i in 0..8 {
        guard.write_byte(i, i as u8 + 1);
    }
    pool.free(guard);
    // The idle stack pops the most recently released buffer: the same
    // storage comes back, with its contents (reuse does not re-zero) and
    // its length intact.
    let reused = pool.get().expect("the same buffer again");
    assert_eq!(reused.len(), 8);
    for i in 0..8 {
        assert_eq!(reused.read_byte(i), i as u8 + 1);
    }
    pool.free(reused);
}

#[test]
fn shrink_respects_low_water_mark() {
    let mut pool = BufferPoolBuilder::new()
        .set_buffer_size(16)
        .set_min_number_of_buffer(2)
        .set_max_number_of_buffer(10)
        .build_mono_thread();
    let mut guards = Vec::new();
    for _ in 0..8 {
        guards.push(pool.get().expect("room below the cap"));
    }
    assert_eq!(pool.total_buffer_count(), 8);
    assert_eq!(pool.available_buffer_count(), 0);
    assert_eq!(pool.low_water_mark(), 0);

    for _ in 0..5 {
        pool.free(guards.pop().unwrap());
    }
    assert_eq!(pool.available_buffer_count(), 5);
    for _ in 0..3 {
        pool.free(guards.pop().unwrap());
    }
    assert_eq!(pool.available_buffer_count(), 8);

    // The trough over the whole interval was 0 (all 8 were checked out at
    // once), so the first cycle drops nothing despite 8 idle buffers.
    pool.clean_excess_buffer();
    assert_eq!(pool.total_buffer_count(), 8);
    assert_eq!(pool.available_buffer_count(), 8);
    assert_eq!(pool.low_water_mark(), 8);

    // A fresh interval with no acquisitions: drop min(8 - 2, 8) = 6.
    pool.clean_excess_buffer();
    assert_eq!(pool.total_buffer_count(), 2);
    assert_eq!(pool.available_buffer_count(), 2);
    assert_eq!(pool.low_water_mark(), 2);
}

#[test]
fn shared_pool_exhaustion_and_recovery() {
    let pool = BufferPoolBuilder::new()
        .set_buffer_size(8)
        .set_min_number_of_buffer(1)
        .set_max_number_of_buffer(1)
        .build_multi_thread();
    let first = pool.get().expect("the only buffer");
    assert!(pool.get().is_none());
    first.free();
    let again = pool.get().expect("the returned buffer");
    again.free();
}

#[test]
fn shared_pool_clones_share_state() {
    let pool = BufferPoolBuilder::new()
        .set_buffer_size(4)
        .set_min_number_of_buffer(1)
        .set_max_number_of_buffer(3)
        .build_multi_thread();
    let other = pool.clone();
    let guard = other.get().expect("the idle buffer");
    let (total, idle) = pool.buffer_counts();
    assert_eq!((total, idle), (1, 0));
    guard.free();
    let (total, idle) = pool.buffer_counts();
    assert_eq!((total, idle), (1, 1));
}

#[test]
fn shared_pool_manual_shrink() {
    let pool = BufferPoolBuilder::new()
        .set_buffer_size(4)
        .set_min_number_of_buffer(1)
        .set_max_number_of_buffer(4)
        .build_multi_thread();
    let a = pool.get().expect("buffer");
    let b = pool.get().expect("buffer");
    let c = pool.get().expect("buffer");
    a.free();
    b.free();
    c.free();
    let (total, idle) = pool.buffer_counts();
    assert_eq!((total, idle), (3, 3));

    // The trough was driven to 0 while all three were out: no drop.
    pool.clean_excess_buffer();
    assert_eq!(pool.buffer_counts(), (3, 3));

    // Fresh interval, trough now 3: drop min(3 - 1, 3) = 2.
    pool.clean_excess_buffer();
    assert_eq!(pool.buffer_counts(), (1, 1));
}

#[test]
fn shared_pool_concurrent_cycles() {
    let runtime = tokio::runtime::Builder::new_multi_thread()
        .worker_threads(4)
        .build()
        .expect("runtime");
    let pool = BufferPoolBuilder::new()
        .set_buffer_size(64)
        .set_min_number_of_buffer(1)
        .set_max_number_of_buffer(2)
        .build_multi_thread();
    let mut handles = Vec::new();
    for _ in 0..4 {
        let pool_cl = pool.clone();
        handles.push(runtime.spawn_blocking(move || {
            for _ in 0..10000 {
                if let Some(mut guard) = pool_cl.get() {
                    guard.write_byte(0, 0x5a);
                    assert_eq!(guard.read_byte(0), 0x5a);
                    guard.free();
                }
                let (total, _idle) = pool_cl.buffer_counts();
                assert!(total <= 2);
            }
        }));
    }
    runtime.block_on(async {
        for handle in handles {
            handle.await.expect("worker");
        }
    });
    let (total, _idle) = pool.buffer_counts();
    assert!((1..=2).contains(&total));
}
