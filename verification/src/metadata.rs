//! Project notification settings, as the metadata service stores them.

use vstd::prelude::*;
use std::collections::HashMap;

verus! {

/// Where notifications go and which events are subscribed by default.
pub struct NotificationSettings {
    pub default_subscriptions: Vec<NotificationSubscription>,
    pub channels: HashMap<String, NotificationChannel>,
}

impl Default for NotificationSettings {
    fn default() -> (s: NotificationSettings)
        ensures
            s.default_subscriptions@.len() == 0,
            s.channels@.len() == 0,
    {
        NotificationSettings { default_subscriptions: Vec::new(), channels: HashMap::new() }
    }
}

/// An event and the channels it is sent to.
pub struct NotificationSubscription {
    pub channel_names: Vec<String>,
    pub event: NotificationEvent,
}

/// A channel notifications can be sent through.
pub enum NotificationChannel {
    Email(EmailNotification),
}

/// An event one can subscribe to.
pub enum NotificationEvent {
    OnRunFailure(OnRunFailure),
}

/// An e-mail channel.
pub struct EmailNotification {
    pub address: String,
    pub verified: bool,
}

/// The event of a run that failed.
pub struct OnRunFailure {}

} // verus!
