//! The durable buffer between producers and the dispatcher: one strict
//! FIFO per notification category, with no ordering across categories.

use vstd::prelude::*;
use crate::model::{Notification, NotificationError, NotificationType};

verus! {

/// Per-category FIFO queues of pending notifications. An entry is inserted
/// at the tail by `push_notification` and leaves once, from the head, by
/// `pop_notification`; categories never share a buffer, so a burst in one
/// cannot delay another.
pub struct NotificationQueue {
    price_alerts: Vec<Notification>,
    market_sentiment: Vec<Notification>,
    strategy_updates: Vec<Notification>,
    trade_execution: Vec<Notification>,
    system_alerts: Vec<Notification>,
}

impl NotificationQueue {
    /// The buffered entries of one category, oldest first.
    pub closed spec fn queue(&self, t: NotificationType) -> Seq<Notification> {
        match t {
            NotificationType::PriceAlert => self.price_alerts@,
            NotificationType::MarketSentiment => self.market_sentiment@,
            NotificationType::StrategyUpdate => self.strategy_updates@,
            NotificationType::TradeExecution => self.trade_execution@,
            NotificationType::SystemAlert => self.system_alerts@,
        }
    }

    /// Empty queues for every category.
    pub fn new() -> (r: NotificationQueue)
        ensures
            forall|t: NotificationType| r.queue(t).len() == 0,
    {
        NotificationQueue {
            price_alerts: Vec::new(),
            market_sentiment: Vec::new(),
            strategy_updates: Vec::new(),
            trade_execution: Vec::new(),
            system_alerts: Vec::new(),
        }
    }

    /// Append a notification at the tail of its category's queue. Every
    /// other category's queue is untouched. The in-process buffer is always
    /// reachable and every notification is representable, so acceptance
    /// never fails; the `Result` is the producer-facing surface, on which a
    /// store-backed buffer would report `QueueUnavailable`.
    pub fn push_notification(&mut self, notification: Notification) -> (r: Result<
        (),
        NotificationError,
    >)
        ensures
            r is Ok,
            final(self).queue(notification.notification_type) == old(self).queue(
                notification.notification_type,
            ).push(notification),
            forall|t: NotificationType|
                t != notification.notification_type ==> final(self).queue(t) == old(self).queue(t),
    {
        match notification.notification_type {
            NotificationType::PriceAlert => self.price_alerts.push(notification),
            NotificationType::MarketSentiment => self.market_sentiment.push(notification),
            NotificationType::StrategyUpdate => self.strategy_updates.push(notification),
            NotificationType::TradeExecution => self.trade_execution.push(notification),
            NotificationType::SystemAlert => self.system_alerts.push(notification),
        }
        Ok(())
    }

    /// Remove and return the oldest entry of one category, or `None` when
    /// that queue is empty; polling, never blocking. Entries of every other
    /// category stay where they are. Stored values decode as they were
    /// pushed, so the `DeserializationError` a store-backed buffer could
    /// raise does not occur here.
    pub fn pop_notification(&mut self, notification_type: NotificationType) -> (r: Result<
        Option<Notification>,
        NotificationError,
    >)
        ensures
            r is Ok,
            old(self).queue(notification_type).len() == 0 ==> {
                &&& r->Ok_0 is None
                &&& final(self).queue(notification_type) == old(self).queue(notification_type)
            },
            old(self).queue(notification_type).len() > 0 ==> {
                &&& r->Ok_0 == Some(old(self).queue(notification_type)[0])
                &&& final(self).queue(notification_type) == old(self).queue(
                    notification_type,
                ).drop_first()
            },
            forall|t: NotificationType|
                t != notification_type ==> final(self).queue(t) == old(self).queue(t),
    {
        let q = match notification_type {
            NotificationType::PriceAlert => &mut self.price_alerts,
            NotificationType::MarketSentiment => &mut self.market_sentiment,
            NotificationType::StrategyUpdate => &mut self.strategy_updates,
            NotificationType::TradeExecution => &mut self.trade_execution,
            NotificationType::SystemAlert => &mut self.system_alerts,
        };
        if q.len() == 0 {
            Ok(None)
        } else {
            let n = q.remove(0);
            Ok(Some(n))
        }
    }

    /// How many entries one category currently buffers; observability, not
    /// flow control.
    pub fn get_queue_length(&self, notification_type: NotificationType) -> (r: usize)
        ensures
            r == self.queue(notification_type).len(),
    {
        match notification_type {
            NotificationType::PriceAlert => self.price_alerts.len(),
            NotificationType::MarketSentiment => self.market_sentiment.len(),
            NotificationType::StrategyUpdate => self.strategy_updates.len(),
            NotificationType::TradeExecution => self.trade_execution.len(),
            NotificationType::SystemAlert => self.system_alerts.len(),
        }
    }
}

} // verus!
