//! The connection registry: at most one live outbound channel per user,
//! last connection wins, and best-effort fan-out of notifications to the
//! channel of the recipient.
//!
//! A channel is named here by a plain handle; the socket tasks that drain
//! frames to the network own the real writer ends and run outside the
//! library, under a lock around this registry.

use vstd::prelude::*;
use std::collections::HashMap;
use crate::model::Notification;
use crate::wire::{socket_frame, spec_socket_frame};

verus! {

broadcast use vstd::std_specs::hash::group_hash_axioms;

/// The registry of live connections, keyed by user. It never holds two
/// channels for one user: registering replaces the previous entry.
pub struct WebSocketServer {
    users: HashMap<i32, u64>,
}

impl WebSocketServer {
    /// The current channel of each connected user.
    pub closed spec fn connections(&self) -> Map<i32, u64> {
        self.users@
    }

    /// An empty registry.
    pub fn new() -> (r: WebSocketServer)
        ensures
            r.connections() == Map::<i32, u64>::empty(),
    {
        WebSocketServer { users: HashMap::new() }
    }

    /// Install `connection` as the user's current channel, superseding any
    /// prior one: from this point only the new channel is reachable.
    pub fn register(&mut self, user_id: i32, connection: u64)
        ensures
            final(self).connections() == old(self).connections().insert(user_id, connection),
    {
        self.users.insert(user_id, connection);
    }

    /// Drop the user's channel; a no-op if none is registered.
    pub fn unregister(&mut self, user_id: i32)
        ensures
            final(self).connections() == old(self).connections().remove(user_id),
    {
        self.users.remove(&user_id);
    }

    /// The frame push a notification produces: the recipient's channel and
    /// the envelope frame when the recipient is connected, and nothing —
    /// routinely, not as an error — when they are not.
    pub fn broadcast_notification(&self, notification: &Notification) -> (r: Option<(u64, String)>)
        ensures
            (r is Some) <==> self.connections().contains_key(notification.user_id),
            r is Some ==> (r->0).0 == self.connections()[notification.user_id] && (r->0).1@
                == spec_socket_frame(*notification),
    {
        match self.users.get(&notification.user_id) {
            Some(conn) => Some((*conn, socket_frame(notification))),
            None => None,
        }
    }
}

} // verus!
