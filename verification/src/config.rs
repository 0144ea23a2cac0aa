//! The immutable service configuration: the webhook endpoint and the shared
//! secret, loaded once at process start and handed by reference into every
//! request handler.

use vstd::prelude::*;

verus! {

/// The two configuration values the relay needs. Both are opaque strings:
/// the webhook URL is only ever handed onward to the outbound call, and the
/// secret is only ever compared against a caller-supplied credential.
pub struct ServiceConfig {
    pub webhook_url: String,
    pub shared_secret: String,
}

impl ServiceConfig {
    /// Builds the configuration from the two startup values.
    pub fn new(webhook_url: String, shared_secret: String) -> (c: ServiceConfig)
        ensures
            c.webhook_url@ == webhook_url@,
            c.shared_secret@ == shared_secret@,
    {
        ServiceConfig { webhook_url, shared_secret }
    }
}

} // verus!
