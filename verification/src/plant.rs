//! The plant entity under care.

use vstd::prelude::*;

use crate::schedule::CareSchedule;
use crate::stamp::fresh_id;
use crate::stamp::now_millis;

verus! {

/// A plant in the user's collection. Timestamps are milliseconds since the
/// Unix epoch.
#[derive(Debug, PartialEq, Eq)]
pub struct Plant {
    pub id: String,
    pub user_id: String,
    pub name: String,
    pub care_schedule: CareSchedule,
    pub image_url: Option<String>,
    pub created_at: i64,
    pub updated_at: i64,
}

impl Plant {
    /// A fresh plant record owned by `user_id`, without an image.
    pub fn new(user_id: String, name: String, care_schedule: CareSchedule) -> (r: Self)
        ensures
            r.user_id == user_id,
            r.name == name,
            r.care_schedule == care_schedule,
            r.image_url is None,
            r.created_at == r.updated_at,
            r.id@.len() == 36,
    {
        let now = now_millis();
        Plant {
            id: fresh_id(),
            user_id,
            name,
            care_schedule,
            image_url: None,
            created_at: now,
            updated_at: now,
        }
    }
}

} // verus!
