//! Counters, metrics snapshots, buffer pooling, and connection-slot
//! accounting.

use tcp_server::counter::ConnectionCounter;
use tcp_server::monit::ServerStats;
use tcp_server::pool::{BufferPool, POOL_LIMIT};

#[test]
fn stats_count_connections_and_bytes() {
    let mut stats = ServerStats::new();
    stats.increment_connection();
    stats.increment_connection();
    stats.decrement_connection();
    stats.add_bytes_read(100);
    stats.add_bytes_read(20);
    stats.add_bytes_written(7);

    let snap = stats.get_stats(1234);
    assert_eq!(snap.uptime_ms, 1234);
    assert_eq!(snap.total_connections, 2);
    assert_eq!(snap.active_connections, 1);
    assert_eq!(snap.total_bytes_read, 120);
    assert_eq!(snap.total_bytes_written, 7);
}

#[test]
fn stats_counters_wrap_like_hardware_counters() {
    let mut stats = ServerStats::new();
    stats.add_bytes_read(u64::MAX);
    stats.add_bytes_read(3);
    let snap = stats.get_stats(0);
    assert_eq!(snap.total_bytes_read, 2);
}

#[test]
fn buffer_pool_parks_and_reuses() {
    let mut pool = BufferPool::new(4096);
    let buf = pool.get_buffer();
    assert!(buf.is_empty());

    pool.return_buffer(vec![1, 2, 3]);
    let reused = pool.get_buffer();
    // Parked buffers come back cleared.
    assert!(reused.is_empty());

    let fresh = pool.get_buffer();
    assert!(fresh.is_empty());
}

#[test]
fn buffer_pool_keeps_at_most_the_limit() {
    let mut pool = BufferPool::new(16);
    for _ in 0..(POOL_LIMIT + 10) {
        pool.return_buffer(Vec::new());
    }
    assert_eq!(pool.parked_count(), POOL_LIMIT);
    let _ = pool.get_buffer();
    assert_eq!(pool.parked_count(), POOL_LIMIT - 1);
}

#[test]
fn connection_counter_bounds_admission() {
    let mut counter = ConnectionCounter::new(2);
    assert!(counter.try_admit());
    assert!(counter.try_admit());
    assert!(!counter.try_admit());
    counter.release();
    assert!(counter.try_admit());
    assert!(!counter.try_admit());
}

#[test]
fn connection_counter_drains_to_zero() {
    let mut counter = ConnectionCounter::new(3);
    assert!(counter.is_drained());
    counter.try_admit();
    counter.try_admit();
    assert!(!counter.is_drained());
    counter.release();
    counter.release();
    assert!(counter.is_drained());
}

#[test]
fn zero_slot_counter_admits_nobody() {
    let mut counter = ConnectionCounter::new(0);
    assert!(!counter.try_admit());
    assert!(counter.is_drained());
}
