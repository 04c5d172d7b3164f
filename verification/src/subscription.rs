//! What a subscription to a WebSocket feed is made of.
use vstd::prelude::*;

verus! {

/// The channels to subscribe to on a WebSocket feed, and the feed's base URL.
pub struct SubscriptionMeta {
    pub ws_channels: Vec<String>,
    pub ws_url: String,
}

} // verus!
