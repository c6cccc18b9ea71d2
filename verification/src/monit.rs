//! Server-wide counters, observed passively by metrics reporting.
//!
//! The counters wrap around on overflow, as hardware counters do; the
//! contracts say so exactly. Sharing between sessions, and the clock the
//! uptime is read from, belong to the embedding: it owns the start instant
//! and passes the elapsed time in when taking a snapshot.

use vstd::prelude::*;
use vstd::wrapping::u64_specs;

verus! {

/// Running totals a server accumulates over its lifetime.
pub struct ServerStats {
    total_connections: u64,
    total_bytes_read: u64,
    total_bytes_written: u64,
    active_connections: u64,
}

/// A point-in-time snapshot of the counters, with the elapsed run time the
/// caller measured.
#[derive(Clone, Copy, Debug, PartialEq, Eq, Structural)]
pub struct ServerMetrics {
    pub uptime_ms: u64,
    pub total_connections: u64,
    pub active_connections: u64,
    pub total_bytes_read: u64,
    pub total_bytes_written: u64,
}

impl ServerStats {
    /// How many connections were ever admitted.
    pub closed spec fn total_connections(&self) -> u64 {
        self.total_connections
    }

    /// How many connections are being serviced now.
    pub closed spec fn active_connections(&self) -> u64 {
        self.active_connections
    }

    /// How many payload bytes were read from peers.
    pub closed spec fn total_bytes_read(&self) -> u64 {
        self.total_bytes_read
    }

    /// How many payload bytes were written to peers.
    pub closed spec fn total_bytes_written(&self) -> u64 {
        self.total_bytes_written
    }

    /// All counters start at zero.
    pub fn new() -> (r: ServerStats)
        ensures
            r.total_connections() == 0,
            r.active_connections() == 0,
            r.total_bytes_read() == 0,
            r.total_bytes_written() == 0,
    {
        ServerStats {
            total_connections: 0,
            total_bytes_read: 0,
            total_bytes_written: 0,
            active_connections: 0,
        }
    }

    /// Admits one connection: one more ever, one more active.
    pub fn increment_connection(&mut self)
        ensures
            final(self).total_connections() == u64_specs::wrapping_add(
                old(self).total_connections(),
                1,
            ),
            final(self).active_connections() == u64_specs::wrapping_add(
                old(self).active_connections(),
                1,
            ),
            final(self).total_bytes_read() == old(self).total_bytes_read(),
            final(self).total_bytes_written() == old(self).total_bytes_written(),
    {
        self.total_connections = self.total_connections.wrapping_add(1);
        self.active_connections = self.active_connections.wrapping_add(1);
    }

    /// Retires one connection: one fewer active.
    pub fn decrement_connection(&mut self)
        ensures
            final(self).active_connections() == u64_specs::wrapping_sub(
                old(self).active_connections(),
                1,
            ),
            final(self).total_connections() == old(self).total_connections(),
            final(self).total_bytes_read() == old(self).total_bytes_read(),
            final(self).total_bytes_written() == old(self).total_bytes_written(),
    {
        self.active_connections = self.active_connections.wrapping_sub(1);
    }

    /// Accounts bytes read from a peer.
    pub fn add_bytes_read(&mut self, bytes: u64)
        ensures
            final(self).total_bytes_read() == u64_specs::wrapping_add(
                old(self).total_bytes_read(),
                bytes,
            ),
            final(self).total_connections() == old(self).total_connections(),
            final(self).active_connections() == old(self).active_connections(),
            final(self).total_bytes_written() == old(self).total_bytes_written(),
    {
        self.total_bytes_read = self.total_bytes_read.wrapping_add(bytes);
    }

    /// Accounts bytes written to a peer.
    pub fn add_bytes_written(&mut self, bytes: u64)
        ensures
            final(self).total_bytes_written() == u64_specs::wrapping_add(
                old(self).total_bytes_written(),
                bytes,
            ),
            final(self).total_connections() == old(self).total_connections(),
            final(self).active_connections() == old(self).active_connections(),
            final(self).total_bytes_read() == old(self).total_bytes_read(),
    {
        self.total_bytes_written = self.total_bytes_written.wrapping_add(bytes);
    }

    /// A snapshot of the counters; the caller supplies the elapsed run time
    /// it measured against its own clock.
    pub fn get_stats(&self, uptime_ms: u64) -> (r: ServerMetrics)
        ensures
            r.uptime_ms == uptime_ms,
            r.total_connections == self.total_connections(),
            r.active_connections == self.active_connections(),
            r.total_bytes_read == self.total_bytes_read(),
            r.total_bytes_written == self.total_bytes_written(),
    {
        ServerMetrics {
            uptime_ms,
            total_connections: self.total_connections,
            active_connections: self.active_connections,
            total_bytes_read: self.total_bytes_read,
            total_bytes_written: self.total_bytes_written,
        }
    }
}

impl Default for ServerStats {
    /// Same zeroed counters as `new`.
    fn default() -> (r: ServerStats)
        ensures
            r.total_connections() == 0,
            r.active_connections() == 0,
            r.total_bytes_read() == 0,
            r.total_bytes_written() == 0,
    {
        ServerStats::new()
    }
}

} // verus!
