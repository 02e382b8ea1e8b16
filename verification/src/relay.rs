//! The addresses of the relay and the topics that the engine subscribes to.
//! Talking to the relay is left to the caller.

use crate::event::{ACTIONS_TOPIC, SENSORS_TOPIC};
use vstd::prelude::*;
use vstd::string::*;

verus! {

/// The address that a client registers at: `http://<relay_host>/register`.
pub open spec fn spec_register_url(relay_host: Seq<char>) -> Seq<char> {
    "http://"@ + relay_host + "/register"@
}

/// The address of the push stream of the client that was registered as
/// `id`: `ws://<relay_host>/ws/<id>`.
pub open spec fn spec_stream_url(relay_host: Seq<char>, id: Seq<char>) -> Seq<char> {
    "ws://"@ + relay_host + "/ws/"@ + id
}

/// The topics that the engine handles, in the order they are registered.
pub open spec fn spec_subscribed_topics() -> Seq<Seq<char>> {
    seq![SENSORS_TOPIC@, ACTIONS_TOPIC@]
}

/// The address that a client registers at.
pub fn register_url(relay_host: &str) -> (url: String)
    ensures
        url@ == spec_register_url(relay_host@),
{
    "http://".to_owned().concat(relay_host).concat("/register")
}

/// The address of the push stream of the client that was registered as
/// `id`.
pub fn stream_url(relay_host: &str, id: &str) -> (url: String)
    ensures
        url@ == spec_stream_url(relay_host@, id@),
{
    "ws://".to_owned().concat(relay_host).concat("/ws/").concat(id)
}

/// The topics to register for: every topic that a dispatch handles.
pub fn subscribed_topics() -> (topics: Vec<String>)
    ensures
        topics@.map_values(|topic: String| topic@) == spec_subscribed_topics(),
{
    let mut topics: Vec<String> = Vec::new();
    topics.push(SENSORS_TOPIC.to_owned());
    topics.push(ACTIONS_TOPIC.to_owned());
    assert(topics@.map_values(|topic: String| topic@) =~= spec_subscribed_topics());
    topics
}

} // verus!
