//! What is done when a watched folder changes.

use vstd::prelude::*;

verus! {

/// The notification to send when a watched folder changes. In both texts `{id}`, `{subject}`,
/// `{sender}`, `{sender.name}`, `{sender.address}`, `{recipient}`, `{recipient.name}` and
/// `{recipient.address}` stand for what the envelope holds.
#[derive(Clone, Debug, PartialEq, Eq)]
pub struct WatchNotifyConfig {
    /// The summary, or title, of the notification.
    pub summary: String,
    /// The body of the notification.
    pub body: String,
}

impl Default for WatchNotifyConfig {
    fn default() -> (res: Self)
        ensures
            res.summary@ == Seq::<char>::empty(),
            res.body@ == Seq::<char>::empty(),
    {
        WatchNotifyConfig { summary: String::new(), body: String::new() }
    }
}

} // verus!
