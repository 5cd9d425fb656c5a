//! The notification registry: identifier allocation and the id-to-record
//! store, together with the handlers of the four remote operations.

use std::collections::HashMap;
use vstd::prelude::*;

use crate::hints::HintValue;

verus! {

broadcast use vstd::std_specs::hash::group_hash_axioms, vstd::string::group_string_axioms;

/// One tracked notification. The four text fields and the timeout are stored
/// exactly as the client supplied them; the timeout is never acted upon.
#[derive(Debug, Clone)]
pub struct Notification {
    pub id: u32,
    pub app_name: String,
    pub summary: String,
    pub body: String,
    pub icon: String,
    pub expire_timeout: i32,
}

/// How the allocation counter moves on each allocation: it advances by one
/// and skips 0 on wraparound, so an allocated id is never 0.
pub open spec fn advance_counter(c: u32) -> u32 {
    if c == u32::MAX {
        1
    } else {
        (c + 1) as u32
    }
}

/// The stateful core of the daemon: the id-to-record store and the
/// allocation counter, seeded at 1.
pub struct NotificationDaemon {
    notifications: HashMap<u32, Notification>,
    next_id: u32,
}

impl NotificationDaemon {
    /// The tracked records, as a map from id to record.
    pub closed spec fn entries(&self) -> Map<u32, Notification> {
        self.notifications@
    }

    /// The current value of the allocation counter.
    pub closed spec fn counter(&self) -> u32 {
        self.next_id
    }

    /// The registry invariant: the counter never sits at 0.
    #[verifier::type_invariant]
    spec fn wf(&self) -> bool {
        self.counter() != 0
    }

    /// The set of tracked ids is always finite.
    pub proof fn lemma_entries_finite(&self)
        ensures
            self.entries().dom().finite(),
    {
    }

    /// A fresh registry: no records, counter at 1.
    pub fn new() -> (d: Self)
        ensures
            d.entries() == Map::<u32, Notification>::empty(),
            d.counter() == 1,
    {
        Self { notifications: HashMap::new(), next_id: 1 }
    }

    /// Allocates the next identifier: returns the counter's current value and
    /// advances it, forcing it back to 1 when the advance wraps to 0.
    pub fn next_id(&mut self) -> (id: u32)
        ensures
            id == old(self).counter(),
            id != 0,
            final(self).counter() == advance_counter(old(self).counter()),
            final(self).entries() == old(self).entries(),
    {
        proof {
            use_type_invariant(&*self);
        }
        let current_id = self.next_id;
        let advanced = self.next_id.wrapping_add(1);
        self.next_id = if advanced == 0 {
            1
        } else {
            advanced
        };
        current_id
    }

    /// The heartbeat metric: the number of tracked records and the counter.
    pub fn get_stats(&self) -> (stats: (usize, u32))
        ensures
            stats.0 == self.entries().len(),
            stats.1 == self.counter(),
    {
        let count = self.notifications.len();
        (count, self.next_id)
    }

    /// Handles a Notify request. A non-zero `replaces_id` is taken verbatim
    /// as the effective id, whether or not a record already sits under it;
    /// a zero `replaces_id` draws a fresh id from the allocator. The record
    /// under the effective id is created or overwritten with the given
    /// fields; `actions` and `hints` are accepted but never persisted.
    #[allow(unused_variables)]
    pub fn notify(
        &mut self,
        app_name: String,
        replaces_id: u32,
        app_icon: String,
        summary: String,
        body: String,
        actions: Vec<String>,
        hints: Vec<(String, HintValue)>,
        expire_timeout: i32,
    ) -> (id: u32)
        ensures
            id != 0,
            id == (if replaces_id > 0 {
                replaces_id
            } else {
                old(self).counter()
            }),
            final(self).counter() == (if replaces_id > 0 {
                old(self).counter()
            } else {
                advance_counter(old(self).counter())
            }),
            final(self).entries() == old(self).entries().insert(
                id,
                (Notification {
                    id: id,
                    app_name: app_name,
                    summary: summary,
                    body: body,
                    icon: app_icon,
                    expire_timeout: expire_timeout,
                }),
            ),
    {
        proof {
            use_type_invariant(&*self);
        }
        let id = if replaces_id > 0 {
            replaces_id
        } else {
            self.next_id()
        };

        let notification = Notification {
            id,
            app_name,
            summary,
            body,
            icon: app_icon,
            expire_timeout,
        };

        let mut store = HashMap::new();
        std::mem::swap(&mut store, &mut self.notifications);
        store.insert(id, notification);
        self.notifications = store;

        id
    }

    /// Handles a CloseNotification request: removes the record under `id` if
    /// one exists. Returns the summary of the removed record, or `None` when
    /// nothing was tracked under `id`; either way the call succeeds, and the
    /// allocation counter is untouched.
    pub fn close_notification(&mut self, id: u32) -> (closed: Option<String>)
        ensures
            final(self).counter() == old(self).counter(),
            final(self).entries() == old(self).entries().remove(id),
            (match closed {
                Some(s) => old(self).entries().contains_key(id)
                    && s == old(self).entries()[id].summary,
                None => !old(self).entries().contains_key(id),
            }),
    {
        proof {
            use_type_invariant(&*self);
        }
        let mut store = HashMap::new();
        std::mem::swap(&mut store, &mut self.notifications);
        let removed = store.remove(&id);
        self.notifications = store;
        match removed {
            Some(notification) => Some(notification.summary),
            None => None,
        }
    }

    /// The record currently tracked under `id`, if any.
    pub fn get(&self, id: u32) -> (record: Option<&Notification>)
        ensures
            (match record {
                Some(n) => self.entries().contains_key(id) && *n == self.entries()[id],
                None => !self.entries().contains_key(id),
            }),
    {
        self.notifications.get(&id)
    }

    /// Handles a GetCapabilities request: the fixed, ordered capability set,
    /// independent of any state.
    pub fn get_capabilities(&self) -> (caps: Vec<String>)
        ensures
            caps@.len() == 4,
            caps@[0]@ == "body"@,
            caps@[1]@ == "body-markup"@,
            caps@[2]@ == "actions"@,
            caps@[3]@ == "persistence"@,
    {
        let mut caps: Vec<String> = Vec::new();
        caps.push("body".to_string());
        caps.push("body-markup".to_string());
        caps.push("actions".to_string());
        caps.push("persistence".to_string());
        caps
    }

    /// Handles a GetServerInformation request: the fixed (name, vendor,
    /// version, specification version) tuple, independent of any state.
    pub fn get_server_information(&self) -> (info: (String, String, String, String))
        ensures
            info.0@ == "Dusty"@,
            info.1@ == "fullzer4"@,
            info.2@ == "0.1.0"@,
            info.3@ == "1.2"@,
    {
        (
            "Dusty".to_string(),
            "fullzer4".to_string(),
            "0.1.0".to_string(),
            "1.2".to_string(),
        )
    }
}

/// Whether the periodic status line is due at this tick of the heartbeat
/// loop: once every tenth tick.
pub fn heartbeat_due(tick: u64) -> (due: bool)
    ensures
        due == (tick % 10 == 0),
{
    tick % 10 == 0
}

} // verus!
