//! In-app notifications: the event broadcast when one is created.
use vstd::prelude::*;

use crate::integrations::{uuid_text, uuid_to_string};
use crate::json::{json_as_str, Json};

verus! {

/// Creates notifications and announces them to connected clients.
pub struct NotificationService;

impl NotificationService {
    /// The name of the event that announces a new notification.
    pub fn event_name() -> (r: String)
        ensures
            r@ == "notification_new"@,
    {
        "notification_new".to_owned()
    }

    /// The payload of that event: `{"user_id": <uuid text>, "notification": n}`.
    pub fn event_payload(user_id: u128, notification: Json) -> (r: Json)
        ensures
            r matches Json::Object(entries) && entries@.len() == 2 && entries@[0].0@ == "user_id"@
                && json_as_str(entries@[0].1) == Some(uuid_text(user_id)) && entries@[1].0@
                == "notification"@ && entries@[1].1 == notification,
    {
        let mut entries: Vec<(String, Json)> = Vec::new();
        entries.push(("user_id".to_owned(), Json::Str(uuid_to_string(user_id))));
        entries.push(("notification".to_owned(), notification));
        Json::Object(entries)
    }
}

} // verus!
