//! Message-queue topic names used by the surrounding service.

use vstd::prelude::*;

verus! {

/// The topics that request events are published to.
#[derive(Debug)]
pub enum KafkaTopic {
    RequestEvent,
}

impl KafkaTopic {
    /// The wire name of the topic.
    pub fn as_str(&self) -> (r: &'static str)
        ensures
            r@ == "ramlich.request_event"@,
    {
        match self {
            KafkaTopic::RequestEvent => "ramlich.request_event",
        }
    }

    /// The topic with the given wire name; every other name is rejected.
    pub fn from_str(topic_name: &str) -> (r: Result<KafkaTopic, &'static str>)
        ensures
            match r {
                Ok(t) => topic_name@ == "ramlich.request_event"@,
                Err(e) => topic_name@ != "ramlich.request_event"@
                    && e@ == "VariantNotFound"@,
            },
    {
        if crate::render::str_eq(topic_name, "ramlich.request_event") {
            Ok(KafkaTopic::RequestEvent)
        } else {
            Err("VariantNotFound")
        }
    }
}

} // verus!
