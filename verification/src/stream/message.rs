//! The protocol messages the client sends, built as JSON values with
//! wire-exact field names and order.

use vstd::prelude::*;
use vstd::string::StringExecFns;

use crate::json::{arr_views, json_view, lemma_arr_views, lemma_obj_views, obj_views, Json, JsonV};

verus! {

/// The handshake message: fixed protocol version and the one supported
/// connection type.
pub open spec fn handshake_message_v() -> JsonV {
    JsonV::Obj(
        seq![
            ("channel"@, JsonV::Str("/meta/handshake"@)),
            ("version"@, JsonV::Str("1.0"@)),
            ("supportedConnectionTypes"@, JsonV::Arr(seq![JsonV::Str("long-polling"@)])),
        ],
    )
}

/// The connect message for a session.
pub open spec fn connect_message_v(client_id: Seq<char>) -> JsonV {
    JsonV::Obj(
        seq![
            ("channel"@, JsonV::Str("/meta/connect"@)),
            ("clientId"@, JsonV::Str(client_id)),
            ("connectionType"@, JsonV::Str("long-polling"@)),
        ],
    )
}

/// The disconnect message for a session.
pub open spec fn disconnect_message_v(client_id: Seq<char>) -> JsonV {
    JsonV::Obj(
        seq![
            ("channel"@, JsonV::Str("/meta/disconnect"@)),
            ("clientId"@, JsonV::Str(client_id)),
        ],
    )
}

/// The subscribe or unsubscribe message for one topic.
pub open spec fn subscription_message_v(
    channel: Seq<char>,
    client_id: Seq<char>,
    topic: Seq<char>,
) -> JsonV {
    JsonV::Obj(
        seq![
            ("channel"@, JsonV::Str(channel)),
            ("clientId"@, JsonV::Str(client_id)),
            ("subscription"@, JsonV::Str(topic)),
        ],
    )
}

/// The subscribe message for one topic.
pub open spec fn subscribe_message_v(client_id: Seq<char>, topic: Seq<char>) -> JsonV {
    subscription_message_v("/meta/subscribe"@, client_id, topic)
}

/// The unsubscribe message for one topic.
pub open spec fn unsubscribe_message_v(client_id: Seq<char>, topic: Seq<char>) -> JsonV {
    subscription_message_v("/meta/unsubscribe"@, client_id, topic)
}

/// The publish message: caller-chosen channel and data.
pub open spec fn publish_message_v(channel: Seq<char>, client_id: Seq<char>, data: JsonV) -> JsonV {
    JsonV::Obj(
        seq![
            ("channel"@, JsonV::Str(channel)),
            ("clientId"@, JsonV::Str(client_id)),
            ("data"@, data),
        ],
    )
}

/// Builds the handshake message.
pub fn handshake_message() -> (r: Json)
    ensures
        json_view(r) == handshake_message_v(),
{
    let types = vec![Json::Str(String::from_str("long-polling"))];
    proof {
        lemma_arr_views(types@);
        assert(arr_views(types@) =~= seq![JsonV::Str("long-polling"@)]);
    }
    let entries = vec![
        (String::from_str("channel"), Json::Str(String::from_str("/meta/handshake"))),
        (String::from_str("version"), Json::Str(String::from_str("1.0"))),
        (String::from_str("supportedConnectionTypes"), Json::Arr(types)),
    ];
    proof {
        lemma_obj_views(entries@);
        assert(obj_views(entries@) =~= (match handshake_message_v() {
            JsonV::Obj(es) => es,
            _ => Seq::empty(),
        }));
    }
    Json::Obj(entries)
}

/// Builds the connect message.
pub fn connect_message(client_id: &String) -> (r: Json)
    ensures
        json_view(r) == connect_message_v(client_id@),
{
    let entries = vec![
        (String::from_str("channel"), Json::Str(String::from_str("/meta/connect"))),
        (String::from_str("clientId"), Json::Str(client_id.clone())),
        (String::from_str("connectionType"), Json::Str(String::from_str("long-polling"))),
    ];
    proof {
        lemma_obj_views(entries@);
        assert(obj_views(entries@) =~= (match connect_message_v(client_id@) {
            JsonV::Obj(es) => es,
            _ => Seq::empty(),
        }));
    }
    Json::Obj(entries)
}

/// Builds the disconnect message.
pub fn disconnect_message(client_id: &String) -> (r: Json)
    ensures
        json_view(r) == disconnect_message_v(client_id@),
{
    let entries = vec![
        (String::from_str("channel"), Json::Str(String::from_str("/meta/disconnect"))),
        (String::from_str("clientId"), Json::Str(client_id.clone())),
    ];
    proof {
        lemma_obj_views(entries@);
        assert(obj_views(entries@) =~= (match disconnect_message_v(client_id@) {
            JsonV::Obj(es) => es,
            _ => Seq::empty(),
        }));
    }
    Json::Obj(entries)
}

/// Builds the subscribe or unsubscribe message for one topic.
pub fn subscription_message(channel: &str, client_id: &String, topic: &String) -> (r: Json)
    ensures
        json_view(r) == subscription_message_v(channel@, client_id@, topic@),
{
    let entries = vec![
        (String::from_str("channel"), Json::Str(String::from_str(channel))),
        (String::from_str("clientId"), Json::Str(client_id.clone())),
        (String::from_str("subscription"), Json::Str(topic.clone())),
    ];
    proof {
        lemma_obj_views(entries@);
        assert(obj_views(entries@) =~= (match subscription_message_v(
            channel@,
            client_id@,
            topic@,
        ) {
            JsonV::Obj(es) => es,
            _ => Seq::empty(),
        }));
    }
    Json::Obj(entries)
}

/// Builds the publish message.
pub fn publish_message(channel: &String, client_id: &String, data: Json) -> (r: Json)
    ensures
        json_view(r) == publish_message_v(channel@, client_id@, json_view(data)),
{
    let ghost dv = json_view(data);
    let entries = vec![
        (String::from_str("channel"), Json::Str(channel.clone())),
        (String::from_str("clientId"), Json::Str(client_id.clone())),
        (String::from_str("data"), data),
    ];
    proof {
        lemma_obj_views(entries@);
        assert(obj_views(entries@) =~= (match publish_message_v(channel@, client_id@, dv) {
            JsonV::Obj(es) => es,
            _ => Seq::empty(),
        }));
    }
    Json::Obj(entries)
}

} // verus!
