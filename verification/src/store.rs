//! The single source of truth for the latest snapshot and the connectivity
//! flag, with change-driven notification.
//!
//! A write replaces the held value wholesale and notifies the subscribers
//! bound to it exactly once; the notification counters record how many such
//! notifications each binding set has received. Reads always see the latest
//! fully written value: the store is written by one task and never exposes a
//! half-updated snapshot.

use vstd::prelude::*;

use crate::metrics::DashboardMetrics;

verus! {

pub struct MetricsStore {
    snapshot: DashboardMetrics,
    connected: bool,
    snapshot_notifications: u64,
    connected_notifications: u64,
}

impl MetricsStore {
    /// The snapshot the store currently holds.
    pub closed spec fn spec_snapshot(self) -> DashboardMetrics {
        self.snapshot
    }

    /// The connectivity flag the store currently holds.
    pub closed spec fn spec_connected(self) -> bool {
        self.connected
    }

    /// How many times subscribers of snapshot-derived values were notified.
    pub closed spec fn spec_snapshot_notifications(self) -> u64 {
        self.snapshot_notifications
    }

    /// How many times subscribers of the connectivity flag were notified.
    pub closed spec fn spec_connected_notifications(self) -> u64 {
        self.connected_notifications
    }

    /// A fresh store: default snapshot, disconnected, nobody notified yet.
    pub fn new() -> (s: Self)
        ensures
            s.spec_snapshot().is_default(),
            !s.spec_connected(),
            s.spec_snapshot_notifications() == 0,
            s.spec_connected_notifications() == 0,
    {
        MetricsStore {
            snapshot: DashboardMetrics::default(),
            connected: false,
            snapshot_notifications: 0,
            connected_notifications: 0,
        }
    }

    /// Replaces the current snapshot wholesale and notifies its subscribers
    /// exactly once; the connectivity flag and its subscribers are untouched.
    pub fn set_snapshot(&mut self, s: DashboardMetrics)
        requires
            old(self).spec_snapshot_notifications() < u64::MAX,
        ensures
            final(self).spec_snapshot() == s,
            final(self).spec_connected() == old(self).spec_connected(),
            final(self).spec_snapshot_notifications() == old(self).spec_snapshot_notifications()
                + 1,
            final(self).spec_connected_notifications() == old(
                self,
            ).spec_connected_notifications(),
    {
        self.snapshot = s;
        self.snapshot_notifications = self.snapshot_notifications + 1;
    }

    /// Replaces the connectivity flag and notifies its subscribers exactly
    /// once; the snapshot and its subscribers are untouched.
    pub fn set_connected(&mut self, b: bool)
        requires
            old(self).spec_connected_notifications() < u64::MAX,
        ensures
            final(self).spec_connected() == b,
            final(self).spec_snapshot() == old(self).spec_snapshot(),
            final(self).spec_connected_notifications() == old(
                self,
            ).spec_connected_notifications() + 1,
            final(self).spec_snapshot_notifications() == old(self).spec_snapshot_notifications(),
    {
        self.connected = b;
        self.connected_notifications = self.connected_notifications + 1;
    }

    /// Read access to the latest snapshot.
    pub fn snapshot(&self) -> (r: &DashboardMetrics)
        ensures
            *r == self.spec_snapshot(),
    {
        &self.snapshot
    }

    /// Read access to the latest connectivity flag.
    pub fn connected(&self) -> (r: bool)
        ensures
            r == self.spec_connected(),
    {
        self.connected
    }

    /// How many times subscribers of snapshot-derived values were notified.
    pub fn snapshot_notifications(&self) -> (r: u64)
        ensures
            r == self.spec_snapshot_notifications(),
    {
        self.snapshot_notifications
    }

    /// How many times subscribers of the connectivity flag were notified.
    pub fn connected_notifications(&self) -> (r: u64)
        ensures
            r == self.spec_connected_notifications(),
    {
        self.connected_notifications
    }
}

} // verus!
