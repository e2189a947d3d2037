//! Counters of what a session has done.

use vstd::prelude::*;
use std::time::Instant;
use crate::clock::clock_elapsed;
use crate::clock::clock_now;
use crate::clock::duration_secs;
use crate::AnalyticsData;

verus! {

/// How many pointer events pass between two progress notes.
pub const MOUSE_EVENT_MILESTONE: u64 = 1000;

/// What a session has counted since `start_time`.
#[derive(Debug, Clone)]
pub struct SessionMetrics {
    pub start_time: Instant,
    pub connections_made: u32,
    pub data_transferred: u64,
    pub errors_encountered: u32,
    pub mouse_events_processed: u64,
    pub clipboard_shares: u32,
    pub hotkey_triggers: u32,
}

impl SessionMetrics {
    /// Whether every counter is zero.
    pub open spec fn is_zero(&self) -> bool {
        &&& self.connections_made == 0
        &&& self.data_transferred == 0
        &&& self.errors_encountered == 0
        &&& self.mouse_events_processed == 0
        &&& self.clipboard_shares == 0
        &&& self.hotkey_triggers == 0
    }

    /// Counters at zero, for a session that starts at the clock reading `now`.
    pub fn new_at(now: Instant) -> (metrics: Self)
        ensures
            metrics.is_zero(),
            metrics.start_time == now,
    {
        SessionMetrics {
            start_time: now,
            connections_made: 0,
            data_transferred: 0,
            errors_encountered: 0,
            mouse_events_processed: 0,
            clipboard_shares: 0,
            hotkey_triggers: 0,
        }
    }

    /// Counters at zero, for a session that starts now.
    pub fn new() -> (metrics: Self)
        ensures
            metrics.is_zero(),
    {
        SessionMetrics::new_at(clock_now())
    }

    /// What is reported of the counters for a session that has lasted
    /// `session_duration` seconds.
    pub open spec fn spec_report(&self, session_duration: u64) -> AnalyticsData {
        AnalyticsData {
            session_duration,
            connections_made: self.connections_made,
            data_transferred: self.data_transferred,
            errors_encountered: self.errors_encountered,
        }
    }
}

/// The counters of a session, and whether counting is on.
#[derive(Debug)]
pub struct AnalyticsManager {
    pub session_data: SessionMetrics,
    pub enabled: bool,
}

impl AnalyticsManager {
    /// Counters at zero, with counting on.
    pub fn new() -> (manager: Self)
        ensures
            manager.session_data.is_zero(),
            manager.enabled,
    {
        AnalyticsManager { session_data: SessionMetrics::new(), enabled: true }
    }

    /// Counts one connection, if counting is on.
    pub fn record_connection(&mut self)
        requires
            old(self).enabled ==> old(self).session_data.connections_made < u32::MAX,
        ensures
            *final(self) == (if old(self).enabled {
                AnalyticsManager {
                    session_data: SessionMetrics {
                        connections_made: (old(self).session_data.connections_made + 1) as u32,
                        ..old(self).session_data
                    },
                    ..*old(self)
                }
            } else {
                *old(self)
            }),
    {
        if self.enabled {
            self.session_data.connections_made = self.session_data.connections_made + 1;
        }
    }

    /// Counts `bytes` transferred bytes, if counting is on.
    pub fn record_data_transfer(&mut self, bytes: u64)
        requires
            old(self).enabled ==> old(self).session_data.data_transferred + bytes <= u64::MAX,
        ensures
            *final(self) == (if old(self).enabled {
                AnalyticsManager {
                    session_data: SessionMetrics {
                        data_transferred: (old(self).session_data.data_transferred + bytes) as u64,
                        ..old(self).session_data
                    },
                    ..*old(self)
                }
            } else {
                *old(self)
            }),
    {
        if self.enabled {
            self.session_data.data_transferred = self.session_data.data_transferred + bytes;
        }
    }

    /// Counts one error, if counting is on.
    pub fn record_error(&mut self)
        requires
            old(self).enabled ==> old(self).session_data.errors_encountered < u32::MAX,
        ensures
            *final(self) == (if old(self).enabled {
                AnalyticsManager {
                    session_data: SessionMetrics {
                        errors_encountered: (old(self).session_data.errors_encountered + 1) as u32,
                        ..old(self).session_data
                    },
                    ..*old(self)
                }
            } else {
                *old(self)
            }),
    {
        if self.enabled {
            self.session_data.errors_encountered = self.session_data.errors_encountered + 1;
        }
    }

    /// Counts one pointer event, if counting is on. Says whether the count has
    /// reached a full thousand, at which a progress note is due.
    pub fn record_mouse_event(&mut self) -> (milestone: bool)
        requires
            old(self).enabled ==> old(self).session_data.mouse_events_processed < u64::MAX,
        ensures
            *final(self) == (if old(self).enabled {
                AnalyticsManager {
                    session_data: SessionMetrics {
                        mouse_events_processed: (old(self).session_data.mouse_events_processed
                            + 1) as u64,
                        ..old(self).session_data
                    },
                    ..*old(self)
                }
            } else {
                *old(self)
            }),
            milestone == (old(self).enabled && (old(self).session_data.mouse_events_processed + 1)
                % (MOUSE_EVENT_MILESTONE as int) == 0),
    {
        if self.enabled {
            self.session_data.mouse_events_processed = self.session_data.mouse_events_processed
                + 1;
            self.session_data.mouse_events_processed % MOUSE_EVENT_MILESTONE == 0
        } else {
            false
        }
    }

    /// Counts one shared clipboard, if counting is on.
    pub fn record_clipboard_share(&mut self)
        requires
            old(self).enabled ==> old(self).session_data.clipboard_shares < u32::MAX,
        ensures
            *final(self) == (if old(self).enabled {
                AnalyticsManager {
                    session_data: SessionMetrics {
                        clipboard_shares: (old(self).session_data.clipboard_shares + 1) as u32,
                        ..old(self).session_data
                    },
                    ..*old(self)
                }
            } else {
                *old(self)
            }),
    {
        if self.enabled {
            self.session_data.clipboard_shares = self.session_data.clipboard_shares + 1;
        }
    }

    /// Counts one triggered hotkey, if counting is on.
    pub fn record_hotkey_trigger(&mut self)
        requires
            old(self).enabled ==> old(self).session_data.hotkey_triggers < u32::MAX,
        ensures
            *final(self) == (if old(self).enabled {
                AnalyticsManager {
                    session_data: SessionMetrics {
                        hotkey_triggers: (old(self).session_data.hotkey_triggers + 1) as u32,
                        ..old(self).session_data
                    },
                    ..*old(self)
                }
            } else {
                *old(self)
            }),
    {
        if self.enabled {
            self.session_data.hotkey_triggers = self.session_data.hotkey_triggers + 1;
        }
    }

    /// The report of a session that has lasted `session_duration` seconds.
    pub fn session_data_after(&self, session_duration: u64) -> (data: AnalyticsData)
        ensures
            data == self.session_data.spec_report(session_duration),
    {
        AnalyticsData {
            session_duration,
            connections_made: self.session_data.connections_made,
            data_transferred: self.session_data.data_transferred,
            errors_encountered: self.session_data.errors_encountered,
        }
    }

    /// The report of the session as the clock stands: the counters, and
    /// whatever time has passed since the session began.
    pub fn get_session_data(&self) -> (data: AnalyticsData)
        ensures
            data == self.session_data.spec_report(data.session_duration),
    {
        let elapsed = clock_elapsed(&self.session_data.start_time);
        self.session_data_after(duration_secs(&elapsed))
    }

    /// Puts every counter back to zero and lets the session begin anew at the
    /// clock reading `now`.
    pub fn reset_session_at(&mut self, now: Instant)
        ensures
            final(self).session_data.is_zero(),
            final(self).session_data.start_time == now,
            final(self).enabled == old(self).enabled,
    {
        self.session_data = SessionMetrics::new_at(now);
    }

    /// Puts every counter back to zero and lets the session begin anew at the
    /// present reading of the clock.
    pub fn reset_session(&mut self)
        ensures
            final(self).session_data.is_zero(),
            final(self).enabled == old(self).enabled,
    {
        self.reset_session_at(clock_now());
    }

    /// Switches counting on or off.
    pub fn enable_analytics(&mut self, enable: bool)
        ensures
            final(self).enabled == enable,
            final(self).session_data == old(self).session_data,
    {
        self.enabled = enable;
    }
}

} // verus!
