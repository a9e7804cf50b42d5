//! The response classifier: decides which of the five documented shapes a
//! raw frame has. The wire format is an untagged union, so the shapes are
//! tried in a fixed priority order — errored first, because an errored frame
//! and a basic frame differ only in the presence of the `error` field with
//! `successful` — then handshake, publish, delivery, and basic last.

use vstd::prelude::*;
use vstd::string::StringExecFns;

use crate::errors::Error;
use crate::json::{arr_views, json_view, Json, JsonV};
use crate::stream::advice::{Advice, Reconnect};
use crate::stream::response::{
    BasicResponse, BasicResponseV, Data, DataV, DeliveryResponse, DeliveryResponseV,
    ErroredResponse, ErroredResponseV, Event, HandshakeResponse, HandshakeResponseV,
    PublishResponse, PublishResponseV, StreamResponse, StreamResponseV,
};

verus! {

broadcast use vstd::std_specs::vec::group_vec_axioms, vstd::seq::group_seq_axioms;

// ---------------------------------------------------------------------------
// Field readers, at the specification level. A reader for an optional field
// returns `None` when the field is present with a wrong type (the frame does
// not have the shape at all), and `Some(x)` when the field is absent, null,
// or well-typed.
// ---------------------------------------------------------------------------

/// A required string field.
pub open spec fn req_str(v: JsonV, key: Seq<char>) -> Option<Seq<char>> {
    match v.get(key) {
        Some(JsonV::Str(s)) => Some(s),
        _ => None,
    }
}

/// A required boolean field.
pub open spec fn req_bool(v: JsonV, key: Seq<char>) -> Option<bool> {
    match v.get(key) {
        Some(JsonV::Bool(b)) => Some(b),
        _ => None,
    }
}

/// An optional string field.
pub open spec fn opt_str(v: JsonV, key: Seq<char>) -> Option<Option<Seq<char>>> {
    match v.get(key) {
        Option::None => Some(None),
        Some(JsonV::Null) => Some(None),
        Some(JsonV::Str(s)) => Some(Some(s)),
        Some(_) => None,
    }
}

/// An optional boolean field.
pub open spec fn opt_bool(v: JsonV, key: Seq<char>) -> Option<Option<bool>> {
    match v.get(key) {
        Option::None => Some(None),
        Some(JsonV::Null) => Some(None),
        Some(JsonV::Bool(b)) => Some(Some(b)),
        Some(_) => None,
    }
}

/// An optional integer field.
pub open spec fn opt_int(v: JsonV, key: Seq<char>) -> Option<Option<i64>> {
    match v.get(key) {
        Option::None => Some(None),
        Some(JsonV::Null) => Some(None),
        Some(JsonV::Int(i)) => Some(Some(i as i64)),
        Some(_) => None,
    }
}

/// An optional field of any shape: absent or null reads as `None`.
pub open spec fn opt_any(v: JsonV, key: Seq<char>) -> Option<JsonV> {
    match v.get(key) {
        Option::None => None,
        Some(JsonV::Null) => None,
        Some(x) => Some(x),
    }
}

/// The reconnect policy a wire word names.
pub open spec fn reconnect_of(s: Seq<char>) -> Option<Reconnect> {
    if s == "handshake"@ {
        Some(Reconnect::Handshake)
    } else if s == "retry"@ {
        Some(Reconnect::Retry)
    } else if s == "none"@ {
        Some(Reconnect::Stop)
    } else {
        None
    }
}

/// A well-formed advice object: a `reconnect` word it knows, and integral
/// `interval` and `timeout` when they are present.
pub open spec fn advice_of(v: JsonV) -> Option<Advice> {
    match v.get("reconnect"@) {
        Some(JsonV::Str(s)) => match reconnect_of(s) {
            Some(reconnect) => match (opt_int(v, "interval"@), opt_int(v, "timeout"@)) {
                (Some(interval), Some(timeout)) => Some(
                    Advice { reconnect, interval, timeout },
                ),
                _ => None,
            },
            None => None,
        },
        _ => None,
    }
}

/// An optional advice field.
pub open spec fn opt_advice(v: JsonV, key: Seq<char>) -> Option<Option<Advice>> {
    match v.get(key) {
        Option::None => Some(None),
        Some(JsonV::Null) => Some(None),
        Some(a) => match advice_of(a) {
            Some(adv) => Some(Some(adv)),
            None => None,
        },
    }
}

/// Every element read as a string, in order; `None` if one is not a string.
pub open spec fn str_seq_of(items: Seq<JsonV>) -> Option<Seq<Seq<char>>>
    decreases items.len(),
{
    if items.len() == 0 {
        Some(Seq::empty())
    } else {
        match items[0] {
            JsonV::Str(s) => match str_seq_of(items.drop_first()) {
                Some(rest) => Some(seq![s] + rest),
                None => None,
            },
            _ => None,
        }
    }
}

/// A required array-of-strings field.
pub open spec fn req_str_arr(v: JsonV, key: Seq<char>) -> Option<Seq<Seq<char>>> {
    match v.get(key) {
        Some(JsonV::Arr(items)) => str_seq_of(items),
        _ => None,
    }
}

// ---------------------------------------------------------------------------
// The five shapes, at the specification level.
// ---------------------------------------------------------------------------

/// The errored shape: `channel`, an `error` string, and `successful` equal
/// to false — the presence of the error with `successful = false` is the one
/// reliable discriminator against the basic shape.
pub open spec fn as_errored(v: JsonV) -> Option<ErroredResponseV> {
    match (req_str(v, "channel"@), req_bool(v, "successful"@), req_str(v, "error"@)) {
        (Some(channel), Some(false), Some(error)) => match (
            opt_str(v, "clientId"@),
            opt_str(v, "subscription"@),
            opt_advice(v, "advice"@),
            opt_str(v, "id"@),
        ) {
            (Some(client_id), Some(subscription), Some(advice), Some(id)) => Some(
                ErroredResponseV {
                    channel,
                    successful: false,
                    error,
                    client_id,
                    subscription,
                    advice,
                    ext: opt_any(v, "ext"@),
                    id,
                },
            ),
            _ => None,
        },
        _ => None,
    }
}

/// The handshake shape: `version`, a `clientId` string, and the supported
/// connection types.
pub open spec fn as_handshake(v: JsonV) -> Option<HandshakeResponseV> {
    match (
        req_str(v, "channel"@),
        req_bool(v, "successful"@),
        req_str(v, "version"@),
        req_str(v, "clientId"@),
        req_str_arr(v, "supportedConnectionTypes"@),
    ) {
        (
            Some(channel),
            Some(successful),
            Some(version),
            Some(client_id),
            Some(supported_connection_types),
        ) => match (
            opt_str(v, "minimumVersion"@),
            opt_advice(v, "advice"@),
            opt_str(v, "id"@),
            opt_bool(v, "authSuccessful"@),
        ) {
            (Some(minimum_version), Some(advice), Some(id), Some(auth_successful)) => Some(
                HandshakeResponseV {
                    channel,
                    successful,
                    version,
                    minimum_version,
                    client_id,
                    supported_connection_types,
                    advice,
                    ext: opt_any(v, "ext"@),
                    id,
                    auth_successful,
                },
            ),
            _ => None,
        },
        _ => None,
    }
}

/// The publish-acknowledgement shape: a `clientId` string, `successful`, and
/// a `data` field of any shape.
pub open spec fn as_publish(v: JsonV) -> Option<PublishResponseV> {
    match (req_str(v, "channel"@), req_str(v, "clientId"@), req_bool(v, "successful"@)) {
        (Some(channel), Some(client_id), Some(successful)) => match (
            opt_str(v, "error"@),
            opt_advice(v, "advice"@),
            opt_str(v, "id"@),
            v.get("data"@),
        ) {
            (Some(error), Some(advice), Some(id), Some(data)) => Some(
                PublishResponseV {
                    channel,
                    client_id,
                    successful,
                    error,
                    advice,
                    ext: opt_any(v, "ext"@),
                    data,
                    id,
                },
            ),
            _ => None,
        },
        _ => None,
    }
}

/// The body of a delivery frame: an event with an integral `replayId`, and a
/// `payload` that must be present.
pub open spec fn data_of(v: JsonV) -> Option<DataV> {
    match v.get("event"@) {
        Some(ev) => match ev.get("replayId"@) {
            Some(JsonV::Int(i)) => match v.get("payload"@) {
                Some(payload) => Some(DataV { event: Event { replay_id: i as i64 }, payload }),
                None => None,
            },
            _ => None,
        },
        None => None,
    }
}

/// The delivery shape: no `successful` field is required; the discriminator
/// is the nested `data.event.replayId`.
pub open spec fn as_delivery(v: JsonV) -> Option<DeliveryResponseV> {
    match (req_str(v, "channel"@), opt_advice(v, "advice"@), opt_str(v, "id"@)) {
        (Some(channel), Some(advice), Some(id)) => match v.get("data"@) {
            Some(d) => match data_of(d) {
                Some(data) => Some(
                    DeliveryResponseV { channel, advice, data, ext: opt_any(v, "ext"@), id },
                ),
                None => None,
            },
            None => None,
        },
        _ => None,
    }
}

/// The catch-all basic shape.
pub open spec fn as_basic(v: JsonV) -> Option<BasicResponseV> {
    match (req_str(v, "channel"@), req_bool(v, "successful"@)) {
        (Some(channel), Some(successful)) => match (
            opt_str(v, "error"@),
            opt_advice(v, "advice"@),
            opt_str(v, "clientId"@),
            opt_str(v, "id"@),
        ) {
            (Some(error), Some(advice), Some(client_id), Some(id)) => Some(
                BasicResponseV {
                    channel,
                    successful,
                    error,
                    advice,
                    ext: opt_any(v, "ext"@),
                    client_id,
                    id,
                },
            ),
            _ => None,
        },
        _ => None,
    }
}

/// Which shape a raw frame has: the first match in the documented priority
/// order, or nothing when none of the five shapes matches.
pub open spec fn classify_one(v: JsonV) -> Option<StreamResponseV> {
    match as_errored(v) {
        Some(f) => Some(StreamResponseV::ErroredResponse(f)),
        None => match as_handshake(v) {
            Some(f) => Some(StreamResponseV::Handshake(f)),
            None => match as_publish(v) {
                Some(f) => Some(StreamResponseV::Publish(f)),
                None => match as_delivery(v) {
                    Some(f) => Some(StreamResponseV::Delivery(f)),
                    None => match as_basic(v) {
                        Some(f) => Some(StreamResponseV::Basic(f)),
                        None => None,
                    },
                },
            },
        },
    }
}

/// Every frame of a batch classified in order, or nothing when any frame
/// matches no shape.
pub open spec fn classify_all(vs: Seq<JsonV>) -> Option<Seq<StreamResponseV>>
    decreases vs.len(),
{
    if vs.len() == 0 {
        Some(Seq::empty())
    } else {
        match (classify_one(vs[0]), classify_all(vs.drop_first())) {
            (Some(f), Some(rest)) => Some(seq![f] + rest),
            _ => None,
        }
    }
}

// ---------------------------------------------------------------------------
// Field readers, executable.
// ---------------------------------------------------------------------------

/// Whether a string holds exactly the given text.
fn str_is(s: &String, lit: &str) -> (r: bool)
    ensures
        r == (s@ == lit@),
{
    let other = String::from_str(lit);
    *s == other
}

fn field_req_str(v: &Json, key: &str) -> (r: Option<String>)
    ensures
        r.deep_view() == req_str(json_view(*v), key@),
{
    match v.get(key) {
        Some(Json::Str(s)) => Some(s.clone()),
        _ => None,
    }
}

fn field_req_bool(v: &Json, key: &str) -> (r: Option<bool>)
    ensures
        r == req_bool(json_view(*v), key@),
{
    match v.get(key) {
        Some(Json::Bool(b)) => Some(*b),
        _ => None,
    }
}

fn field_opt_str(v: &Json, key: &str) -> (r: Option<Option<String>>)
    ensures
        r.deep_view() == opt_str(json_view(*v), key@),
{
    match v.get(key) {
        Option::None => Some(None),
        Some(Json::Null) => Some(None),
        Some(Json::Str(s)) => Some(Some(s.clone())),
        Some(_) => None,
    }
}

fn field_opt_bool(v: &Json, key: &str) -> (r: Option<Option<bool>>)
    ensures
        r.deep_view() == opt_bool(json_view(*v), key@),
{
    match v.get(key) {
        Option::None => Some(None),
        Some(Json::Null) => Some(None),
        Some(Json::Bool(b)) => Some(Some(*b)),
        Some(_) => None,
    }
}

fn field_opt_int(v: &Json, key: &str) -> (r: Option<Option<i64>>)
    ensures
        r.deep_view() == opt_int(json_view(*v), key@),
{
    match v.get(key) {
        Option::None => Some(None),
        Some(Json::Null) => Some(None),
        Some(Json::Int(i)) => Some(Some(*i)),
        Some(_) => None,
    }
}

fn field_opt_any(v: &Json, key: &str) -> (r: Option<Json>)
    ensures
        r.deep_view() == opt_any(json_view(*v), key@),
{
    match v.get(key) {
        Option::None => None,
        Some(Json::Null) => None,
        Some(x) => Some(x.clone()),
    }
}

/// Reads one advice object; relied on by every shape reader.
fn advice_from(j: &Json) -> (r: Option<Advice>)
    ensures
        r == advice_of(json_view(*j)),
{
    let reconnect = match j.get("reconnect") {
        Some(Json::Str(s)) => {
            if str_is(s, "handshake") {
                Reconnect::Handshake
            } else if str_is(s, "retry") {
                Reconnect::Retry
            } else if str_is(s, "none") {
                Reconnect::Stop
            } else {
                return None;
            }
        },
        _ => {
            return None;
        },
    };
    let interval = match field_opt_int(j, "interval") {
        Some(iv) => iv,
        None => {
            return None;
        },
    };
    let timeout = match field_opt_int(j, "timeout") {
        Some(tv) => tv,
        None => {
            return None;
        },
    };
    Some(Advice { reconnect, interval, timeout })
}

fn field_opt_advice(v: &Json, key: &str) -> (r: Option<Option<Advice>>)
    ensures
        r == opt_advice(json_view(*v), key@),
{
    match v.get(key) {
        Option::None => Some(None),
        Some(Json::Null) => Some(None),
        Some(a) => match advice_from(a) {
            Some(adv) => Some(Some(adv)),
            None => None,
        },
    }
}

fn strings_from(items: &Vec<Json>) -> (r: Option<Vec<String>>)
    ensures
        r.deep_view() == str_seq_of(arr_views(items@)),
{
    let ghost views = arr_views(items@);
    proof {
        crate::json::lemma_arr_views(items@);
    }
    let mut out: Vec<String> = Vec::new();
    proof {
        assert(views.skip(0) =~= views);
        assert(out.deep_view() =~= Seq::<Seq<char>>::empty());
        if str_seq_of(views) is Some {
            assert(out.deep_view() + str_seq_of(views)->Some_0 =~= str_seq_of(views)->Some_0);
        }
    }
    let n = items.len();
    let mut i: usize = 0;
    while i < n
        invariant
            i <= n,
            n == items@.len(),
            views == arr_views(items@),
            views.len() == n,
            forall|j: int| 0 <= j < n ==> views[j] == json_view(items@[j]),
            out@.len() == i,
            str_seq_of(views) == match str_seq_of(views.skip(i as int)) {
                Some(rest) => Some(out.deep_view() + rest),
                None => None::<Seq<Seq<char>>>,
            },
        decreases n - i,
    {
        proof {
            assert(views.skip(i as int).len() == n - i);
            assert(views.skip(i as int)[0] == views[i as int]);
            assert(views.skip(i as int).drop_first() =~= views.skip(i as int + 1));
        }
        match &items[i] {
            Json::Str(s) => {
                let c = s.clone();
                out.push(c);
            },
            _ => {
                return None;
            },
        }
        proof {
            if str_seq_of(views.skip(i as int + 1)) is Some {
                let rest = str_seq_of(views.skip(i as int + 1))->Some_0;
                assert(out.deep_view() + rest =~= out.deep_view().drop_last() + (seq![
                    views[i as int]->Str_0,
                ] + rest));
            }
        }
        i += 1;
    }
    proof {
        assert(views.skip(n as int) =~= Seq::<JsonV>::empty());
        assert(out.deep_view() + Seq::<Seq<char>>::empty() =~= out.deep_view());
    }
    Some(out)
}

fn field_req_str_arr(v: &Json, key: &str) -> (r: Option<Vec<String>>)
    ensures
        r.deep_view() == req_str_arr(json_view(*v), key@),
{
    match v.get(key) {
        Some(Json::Arr(items)) => strings_from(items),
        _ => None,
    }
}

// ---------------------------------------------------------------------------
// The five shapes, executable.
// ---------------------------------------------------------------------------

fn read_errored(v: &Json) -> (r: Option<ErroredResponse>)
    ensures
        r.deep_view() == as_errored(json_view(*v)),
{
    let channel = match field_req_str(v, "channel") {
        Some(x) => x,
        None => {
            return None;
        },
    };
    let successful = match field_req_bool(v, "successful") {
        Some(x) => x,
        None => {
            return None;
        },
    };
    if successful {
        return None;
    }
    let error = match field_req_str(v, "error") {
        Some(x) => x,
        None => {
            return None;
        },
    };
    let client_id = match field_opt_str(v, "clientId") {
        Some(x) => x,
        None => {
            return None;
        },
    };
    let subscription = match field_opt_str(v, "subscription") {
        Some(x) => x,
        None => {
            return None;
        },
    };
    let advice = match field_opt_advice(v, "advice") {
        Some(x) => x,
        None => {
            return None;
        },
    };
    let id = match field_opt_str(v, "id") {
        Some(x) => x,
        None => {
            return None;
        },
    };
    let ext = field_opt_any(v, "ext");
    Some(ErroredResponse { channel, successful, error, client_id, subscription, advice, ext, id })
}

fn read_handshake(v: &Json) -> (r: Option<HandshakeResponse>)
    ensures
        r.deep_view() == as_handshake(json_view(*v)),
{
    let channel = match field_req_str(v, "channel") {
        Some(x) => x,
        None => {
            return None;
        },
    };
    let successful = match field_req_bool(v, "successful") {
        Some(x) => x,
        None => {
            return None;
        },
    };
    let version = match field_req_str(v, "version") {
        Some(x) => x,
        None => {
            return None;
        },
    };
    let client_id = match field_req_str(v, "clientId") {
        Some(x) => x,
        None => {
            return None;
        },
    };
    let supported_connection_types = match field_req_str_arr(v, "supportedConnectionTypes") {
        Some(x) => x,
        None => {
            return None;
        },
    };
    let minimum_version = match field_opt_str(v, "minimumVersion") {
        Some(x) => x,
        None => {
            return None;
        },
    };
    let advice = match field_opt_advice(v, "advice") {
        Some(x) => x,
        None => {
            return None;
        },
    };
    let id = match field_opt_str(v, "id") {
        Some(x) => x,
        None => {
            return None;
        },
    };
    let auth_successful = match field_opt_bool(v, "authSuccessful") {
        Some(x) => x,
        None => {
            return None;
        },
    };
    let ext = field_opt_any(v, "ext");
    Some(
        HandshakeResponse {
            channel,
            successful,
            version,
            minimum_version,
            client_id,
            supported_connection_types,
            advice,
            ext,
            id,
            auth_successful,
        },
    )
}

fn read_publish(v: &Json) -> (r: Option<PublishResponse>)
    ensures
        r.deep_view() == as_publish(json_view(*v)),
{
    let channel = match field_req_str(v, "channel") {
        Some(x) => x,
        None => {
            return None;
        },
    };
    let client_id = match field_req_str(v, "clientId") {
        Some(x) => x,
        None => {
            return None;
        },
    };
    let successful = match field_req_bool(v, "successful") {
        Some(x) => x,
        None => {
            return None;
        },
    };
    let error = match field_opt_str(v, "error") {
        Some(x) => x,
        None => {
            return None;
        },
    };
    let advice = match field_opt_advice(v, "advice") {
        Some(x) => x,
        None => {
            return None;
        },
    };
    let id = match field_opt_str(v, "id") {
        Some(x) => x,
        None => {
            return None;
        },
    };
    let data = match v.get("data") {
        Some(d) => d.clone(),
        None => {
            return None;
        },
    };
    let ext = field_opt_any(v, "ext");
    Some(PublishResponse { channel, client_id, successful, error, advice, ext, data, id })
}

fn read_data(j: &Json) -> (r: Option<Data>)
    ensures
        r.deep_view() == data_of(json_view(*j)),
{
    let replay_id = match j.get("event") {
        Some(ev) => match ev.get("replayId") {
            Some(Json::Int(i)) => *i,
            _ => {
                return None;
            },
        },
        None => {
            return None;
        },
    };
    let payload = match j.get("payload") {
        Some(p) => p.clone(),
        None => {
            return None;
        },
    };
    Some(Data { event: Event { replay_id }, payload })
}

fn read_delivery(v: &Json) -> (r: Option<DeliveryResponse>)
    ensures
        r.deep_view() == as_delivery(json_view(*v)),
{
    let channel = match field_req_str(v, "channel") {
        Some(x) => x,
        None => {
            return None;
        },
    };
    let advice = match field_opt_advice(v, "advice") {
        Some(x) => x,
        None => {
            return None;
        },
    };
    let id = match field_opt_str(v, "id") {
        Some(x) => x,
        None => {
            return None;
        },
    };
    let data = match v.get("data") {
        Some(d) => match read_data(d) {
            Some(x) => x,
            None => {
                return None;
            },
        },
        None => {
            return None;
        },
    };
    let ext = field_opt_any(v, "ext");
    Some(DeliveryResponse { channel, advice, data, ext, id })
}

fn read_basic(v: &Json) -> (r: Option<BasicResponse>)
    ensures
        r.deep_view() == as_basic(json_view(*v)),
{
    let channel = match field_req_str(v, "channel") {
        Some(x) => x,
        None => {
            return None;
        },
    };
    let successful = match field_req_bool(v, "successful") {
        Some(x) => x,
        None => {
            return None;
        },
    };
    let error = match field_opt_str(v, "error") {
        Some(x) => x,
        None => {
            return None;
        },
    };
    let advice = match field_opt_advice(v, "advice") {
        Some(x) => x,
        None => {
            return None;
        },
    };
    let client_id = match field_opt_str(v, "clientId") {
        Some(x) => x,
        None => {
            return None;
        },
    };
    let id = match field_opt_str(v, "id") {
        Some(x) => x,
        None => {
            return None;
        },
    };
    let ext = field_opt_any(v, "ext");
    Some(BasicResponse { channel, successful, error, advice, ext, client_id, id })
}

/// Classifies one raw frame: deterministic and total over the five shapes,
/// in the documented priority order; a frame that matches none of them is
/// malformed and never coerces to the basic shape.
pub fn classify_frame(v: &Json) -> (r: Result<StreamResponse, Error>)
    ensures
        match r {
            Ok(f) => classify_one(json_view(*v)) == Some(f.deep_view()),
            Err(e) => classify_one(json_view(*v)) is None && e == Error::MalformedResponse,
        },
{
    if let Some(f) = read_errored(v) {
        return Ok(StreamResponse::ErroredResponse(f));
    }
    if let Some(f) = read_handshake(v) {
        return Ok(StreamResponse::Handshake(f));
    }
    if let Some(f) = read_publish(v) {
        return Ok(StreamResponse::Publish(f));
    }
    if let Some(f) = read_delivery(v) {
        return Ok(StreamResponse::Delivery(f));
    }
    if let Some(f) = read_basic(v) {
        return Ok(StreamResponse::Basic(f));
    }
    Err(Error::MalformedResponse)
}

/// Classifies a whole batch, in order; fails on the first frame that matches
/// no shape.
pub fn classify(frames: &Vec<Json>) -> (r: Result<Vec<StreamResponse>, Error>)
    ensures
        match r {
            Ok(out) => classify_all(arr_views(frames@)) == Some(out.deep_view()),
            Err(e) => classify_all(arr_views(frames@)) is None && e == Error::MalformedResponse,
        },
{
    let ghost views = arr_views(frames@);
    proof {
        crate::json::lemma_arr_views(frames@);
    }
    let mut out: Vec<StreamResponse> = Vec::new();
    proof {
        assert(views.skip(0) =~= views);
        assert(out.deep_view() =~= Seq::<StreamResponseV>::empty());
        if classify_all(views) is Some {
            assert(out.deep_view() + classify_all(views)->Some_0 =~= classify_all(views)->Some_0);
        }
    }
    let n = frames.len();
    let mut i: usize = 0;
    while i < n
        invariant
            i <= n,
            n == frames@.len(),
            views == arr_views(frames@),
            views.len() == n,
            forall|j: int| 0 <= j < n ==> views[j] == json_view(frames@[j]),
            out@.len() == i,
            classify_all(views) == match classify_all(views.skip(i as int)) {
                Some(rest) => Some(out.deep_view() + rest),
                None => None::<Seq<StreamResponseV>>,
            },
        decreases n - i,
    {
        proof {
            assert(views.skip(i as int).len() == n - i);
            assert(views.skip(i as int)[0] == views[i as int]);
            assert(views.skip(i as int).drop_first() =~= views.skip(i as int + 1));
        }
        match classify_frame(&frames[i]) {
            Ok(f) => {
                out.push(f);
            },
            Err(e) => {
                return Err(e);
            },
        }
        proof {
            if classify_all(views.skip(i as int + 1)) is Some {
                let rest = classify_all(views.skip(i as int + 1))->Some_0;
                assert(out.deep_view() + rest =~= out.deep_view().drop_last() + (seq![
                    out.deep_view().last(),
                ] + rest));
            }
        }
        i += 1;
    }
    proof {
        assert(views.skip(n as int) =~= Seq::<JsonV>::empty());
        assert(out.deep_view() + Seq::<StreamResponseV>::empty() =~= out.deep_view());
    }
    Ok(out)
}

} // verus!
