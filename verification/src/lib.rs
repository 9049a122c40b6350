//! Core of a notification delivery subsystem: a per-type FIFO queue, a
//! webhook manager that signs and targets HTTP callbacks, and a connection
//! registry that fans notifications out to live sockets.

pub mod api;
pub mod clock;
pub mod crypto;
pub mod dispatch;
pub mod json;
pub mod laws;
pub mod model;
pub mod queue;
pub mod webhook;
pub mod websocket;
pub mod wire;

pub use json::JsonValue;
pub use model::{
    Notification, NotificationError, NotificationPreference, NotificationType,
    UpdatePreferencesRequest,
};
pub use queue::NotificationQueue;
pub use webhook::{
    CreateWebhookRequest, WebhookConfig, WebhookDelivery, WebhookManager,
};
pub use websocket::WebSocketServer;
pub use dispatch::DispatchOutcome;
