//! The message envelope moving through the subsystem and its error taxonomy.

use vstd::prelude::*;
use crate::json::JsonValue;
use crate::clock::now_millis;

verus! {

/// The closed set of notification categories moving through the system.
/// Each category owns one logical queue and one subscription tag.
#[derive(Debug, Clone, Copy, PartialEq, Eq, Structural)]
pub enum NotificationType {
    PriceAlert,
    MarketSentiment,
    StrategyUpdate,
    TradeExecution,
    SystemAlert,
}

/// The subscription tag of a category, the value webhook configurations
/// hold in `notification_types`.
pub open spec fn spec_type_tag(t: NotificationType) -> Seq<char> {
    match t {
        NotificationType::PriceAlert => "PriceAlert"@,
        NotificationType::MarketSentiment => "MarketSentiment"@,
        NotificationType::StrategyUpdate => "StrategyUpdate"@,
        NotificationType::TradeExecution => "TradeExecution"@,
        NotificationType::SystemAlert => "SystemAlert"@,
    }
}

/// The name of the per-category queue in the backing store.
pub open spec fn spec_queue_key(t: NotificationType) -> Seq<char> {
    match t {
        NotificationType::PriceAlert => "queue:price_alerts"@,
        NotificationType::MarketSentiment => "queue:market_sentiment"@,
        NotificationType::StrategyUpdate => "queue:strategy_updates"@,
        NotificationType::TradeExecution => "queue:trade_execution"@,
        NotificationType::SystemAlert => "queue:system_alerts"@,
    }
}

impl NotificationType {
    /// The queue this category is buffered in.
    pub fn queue_key(&self) -> (r: &'static str)
        ensures
            r@ == spec_queue_key(*self),
    {
        match self {
            NotificationType::PriceAlert => "queue:price_alerts",
            NotificationType::MarketSentiment => "queue:market_sentiment",
            NotificationType::StrategyUpdate => "queue:strategy_updates",
            NotificationType::TradeExecution => "queue:trade_execution",
            NotificationType::SystemAlert => "queue:system_alerts",
        }
    }

    /// The subscription tag of this category.
    pub fn type_tag(&self) -> (r: &'static str)
        ensures
            r@ == spec_type_tag(*self),
    {
        match self {
            NotificationType::PriceAlert => "PriceAlert",
            NotificationType::MarketSentiment => "MarketSentiment",
            NotificationType::StrategyUpdate => "StrategyUpdate",
            NotificationType::TradeExecution => "TradeExecution",
            NotificationType::SystemAlert => "SystemAlert",
        }
    }
}

/// The message envelope. `id` is assigned by persistence and absent until
/// then; `read_at` is set exactly once, when the recipient acknowledges.
/// Timestamps are UTC milliseconds since the Unix epoch.
#[derive(Debug, PartialEq)]
pub struct Notification {
    pub id: Option<i32>,
    pub user_id: i32,
    pub notification_type: NotificationType,
    pub title: String,
    pub message: String,
    pub metadata: JsonValue,
    pub created_at: i64,
    pub read_at: Option<i64>,
}

impl Notification {
    /// The envelope's invariant: an acknowledgement cannot precede creation.
    pub open spec fn wf(&self) -> bool {
        match self.read_at {
            Some(t) => t >= self.created_at,
            None => true,
        }
    }

    /// A fresh envelope: `created_at` stamped from the wall clock, `id` and
    /// `read_at` unset.
    pub fn new(
        user_id: i32,
        notification_type: NotificationType,
        title: String,
        message: String,
        metadata: JsonValue,
    ) -> (r: Notification)
        ensures
            r.id is None,
            r.user_id == user_id,
            r.notification_type == notification_type,
            r.title == title,
            r.message == message,
            r.metadata == metadata,
            r.read_at is None,
            r.wf(),
    {
        Notification {
            id: None,
            user_id,
            notification_type,
            title,
            message,
            metadata,
            created_at: now_millis(),
            read_at: None,
        }
    }

    /// The recipient's acknowledgement: the one transition an envelope
    /// undergoes after creation.
    pub fn mark_read(&mut self, at: i64)
        requires
            old(self).read_at is None,
            at >= old(self).created_at,
        ensures
            final(self).read_at == Some(at),
            final(self).id == old(self).id,
            final(self).user_id == old(self).user_id,
            final(self).notification_type == old(self).notification_type,
            final(self).title == old(self).title,
            final(self).message == old(self).message,
            final(self).metadata == old(self).metadata,
            final(self).created_at == old(self).created_at,
            final(self).wf(),
    {
        self.read_at = Some(at);
    }
}

/// What can go wrong inside the subsystem. Only failures to accept work
/// into the queue surface to the producer; a failed webhook attempt is
/// contained to that one attempt.
#[derive(Debug, Clone, Copy, PartialEq, Eq, Structural)]
pub enum NotificationError {
    /// A payload could not be encoded for the backing store.
    SerializationError,
    /// A stored payload could not be decoded again; the entry is lost.
    DeserializationError,
    /// The backing store could not be reached; the producer may retry.
    QueueUnavailable,
    /// One webhook attempt failed, with the HTTP status received, or zero
    /// when the endpoint could not be reached at all.
    DeliveryFailure(u16),
    /// No stored webhook configuration carries the given id under the
    /// given owner; an update or delete aimed at it fails rather than
    /// touching another user's row.
    ConfigNotFound,
}

/// A user's delivery-channel switches, as the preference row holds them.
#[derive(Debug, Clone, Copy, PartialEq, Eq, Structural)]
pub struct NotificationPreference {
    pub user_id: i32,
    pub email_enabled: bool,
    pub telegram_enabled: bool,
    pub whatsapp_enabled: bool,
    pub price_alerts_enabled: bool,
    pub system_alerts_enabled: bool,
    pub created_at: i64,
    pub updated_at: i64,
}

/// A partial update of the preference row: absent fields keep their value.
#[derive(Debug, Clone, Copy, PartialEq, Eq, Structural)]
pub struct UpdatePreferencesRequest {
    pub email_enabled: Option<bool>,
    pub telegram_enabled: Option<bool>,
    pub whatsapp_enabled: Option<bool>,
    pub price_alerts_enabled: Option<bool>,
    pub system_alerts_enabled: Option<bool>,
}

impl NotificationPreference {
    /// The merged row an update produces: every switch named in the request
    /// takes the requested value, every other keeps its own, and the update
    /// stamp moves to `at`.
    pub fn apply_update(&self, req: &UpdatePreferencesRequest, at: i64) -> (r:
        NotificationPreference)
        ensures
            r.user_id == self.user_id,
            r.email_enabled == if req.email_enabled is Some {
                req.email_enabled->0
            } else {
                self.email_enabled
            },
            r.telegram_enabled == if req.telegram_enabled is Some {
                req.telegram_enabled->0
            } else {
                self.telegram_enabled
            },
            r.whatsapp_enabled == if req.whatsapp_enabled is Some {
                req.whatsapp_enabled->0
            } else {
                self.whatsapp_enabled
            },
            r.price_alerts_enabled == if req.price_alerts_enabled is Some {
                req.price_alerts_enabled->0
            } else {
                self.price_alerts_enabled
            },
            r.system_alerts_enabled == if req.system_alerts_enabled is Some {
                req.system_alerts_enabled->0
            } else {
                self.system_alerts_enabled
            },
            r.created_at == self.created_at,
            r.updated_at == at,
    {
        NotificationPreference {
            user_id: self.user_id,
            email_enabled: match req.email_enabled {
                Some(b) => b,
                None => self.email_enabled,
            },
            telegram_enabled: match req.telegram_enabled {
                Some(b) => b,
                None => self.telegram_enabled,
            },
            whatsapp_enabled: match req.whatsapp_enabled {
                Some(b) => b,
                None => self.whatsapp_enabled,
            },
            price_alerts_enabled: match req.price_alerts_enabled {
                Some(b) => b,
                None => self.price_alerts_enabled,
            },
            system_alerts_enabled: match req.system_alerts_enabled {
                Some(b) => b,
                None => self.system_alerts_enabled,
            },
            created_at: self.created_at,
            updated_at: at,
        }
    }
}

} // verus!
