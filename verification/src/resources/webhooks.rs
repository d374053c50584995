//! Webhooks: endpoints receiving real-time notifications about events.

use vstd::prelude::*;

use crate::types::EventType;
use crate::types::ListParams;
use crate::types::Timestamp;
use crate::types::WebhookId;

verus! {

/// Whether a webhook receives deliveries.
#[derive(Debug, Clone, Copy, PartialEq, Eq, Structural)]
pub enum WebhookStatus {
    Enabled,
    Disabled,
}

/// A webhook resource.
#[derive(Debug, Clone, PartialEq, Eq)]
pub struct Webhook {
    pub id: WebhookId,
    pub secret_key: Option<String>,
    pub status: WebhookStatus,
    pub description: Option<String>,
    pub livemode: bool,
    pub url: String,
    pub events: Vec<EventType>,
    pub created_at: Timestamp,
    pub updated_at: Timestamp,
}

/// Parameters for creating a webhook.
#[derive(Debug, Clone, PartialEq, Eq)]
pub struct CreateWebhook {
    pub url: String,
    pub events: Vec<EventType>,
    pub description: Option<String>,
}

impl CreateWebhook {
    /// Parameters for a webhook at the given URL receiving the given events.
    pub fn new(url: &str, events: Vec<EventType>) -> (r: Self)
        ensures
            r.url@ == url@,
            r.events == events,
            r.description is None,
    {
        CreateWebhook { url: url.to_owned(), events, description: None }
    }

    /// Sets the description.
    pub fn description(self, description: &str) -> (r: Self)
        ensures
            r.description matches Some(d) && d@ == description@,
            r == (CreateWebhook { description: r.description, ..self }),
    {
        CreateWebhook { description: Some(description.to_owned()), ..self }
    }
}

/// Parameters for updating a webhook; unset fields stay as they are.
#[derive(Debug, Clone, PartialEq, Eq)]
pub struct UpdateWebhook {
    pub url: Option<String>,
    pub events: Option<Vec<EventType>>,
    pub description: Option<String>,
}

impl UpdateWebhook {
    /// Parameters changing nothing.
    pub fn new() -> (r: Self)
        ensures
            r.url is None,
            r.events is None,
            r.description is None,
    {
        UpdateWebhook { url: None, events: None, description: None }
    }

    /// Sets the URL.
    pub fn url(self, url: &str) -> (r: Self)
        ensures
            r.url matches Some(u) && u@ == url@,
            r == (UpdateWebhook { url: r.url, ..self }),
    {
        UpdateWebhook { url: Some(url.to_owned()), ..self }
    }

    /// Sets the received events.
    pub fn events(self, events: Vec<EventType>) -> (r: Self)
        ensures
            r == (UpdateWebhook { events: Some(events), ..self }),
    {
        UpdateWebhook { events: Some(events), ..self }
    }

    /// Sets the description.
    pub fn description(self, description: &str) -> (r: Self)
        ensures
            r.description matches Some(d) && d@ == description@,
            r == (UpdateWebhook { description: r.description, ..self }),
    {
        UpdateWebhook { description: Some(description.to_owned()), ..self }
    }
}

impl Default for UpdateWebhook {
    /// Parameters changing nothing.
    fn default() -> (r: Self)
        ensures
            r.url is None,
            r.events is None,
            r.description is None,
    {
        UpdateWebhook::new()
    }
}

/// Filters for listing webhooks.
#[derive(Debug, Clone, PartialEq, Eq)]
pub struct WebhookListParams {
    pub base: Option<ListParams>,
    pub url: Option<String>,
    pub description: Option<String>,
}

impl Default for WebhookListParams {
    /// Filters matching every webhook.
    fn default() -> (r: Self)
        ensures
            r.base is None,
            r.url is None,
            r.description is None,
    {
        WebhookListParams { base: None, url: None, description: None }
    }
}

} // verus!
