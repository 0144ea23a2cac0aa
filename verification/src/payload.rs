//! The fixed notification message the relay forwards on every valid trigger:
//! a display name, an icon, a mention-everyone marker, and a fixed title.
//! There is no templating and no payload variability.

use vstd::prelude::*;

verus! {

/// The content of the one outbound message. Every field is pinned to a fixed
/// value by the constructor's contract.
pub struct NotificationPayload {
    /// Display name the message is posted under.
    pub username: String,
    /// URL of the icon shown beside the message.
    pub avatar_url: String,
    /// Message text; mentions everyone on the receiving channel.
    pub content: String,
    /// Title of the embedded notice.
    pub embed_title: String,
}

impl NotificationPayload {
    /// Builds the one and only payload the relay ever sends.
    pub fn fixed() -> (p: NotificationPayload)
        ensures
            p.username@ == "Intercom notifier"@,
            p.avatar_url@
                == "https://github.com/kory33/home-intercom-server-rs/raw/master/assets/240px-Speaker_Icon.jpg"@,
            p.content@ == "@everyone"@,
            p.embed_title@ == "The intercom just rang!"@,
    {
        NotificationPayload {
            username: "Intercom notifier".to_owned(),
            avatar_url:
                "https://github.com/kory33/home-intercom-server-rs/raw/master/assets/240px-Speaker_Icon.jpg".to_owned(),
            content: "@everyone".to_owned(),
            embed_title: "The intercom just rang!".to_owned(),
        }
    }
}

} // verus!
