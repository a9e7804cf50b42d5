//! The five shapes a server frame can take. The wire format is an untagged
//! union; [`crate::stream::classify`] decides which shape a raw frame has.

use vstd::prelude::*;

use crate::json::{json_view, Json, JsonV};
use crate::stream::advice::Advice;

verus! {

/// The catch-all response shape, for frames that match none of the more
/// specific ones.
#[derive(Debug, PartialEq)]
pub struct BasicResponse {
    pub channel: String,
    pub successful: bool,
    pub error: Option<String>,
    pub advice: Option<Advice>,
    pub ext: Option<Json>,
    pub client_id: Option<String>,
    pub id: Option<String>,
}

/// The reply to a handshake request.
#[derive(Debug, PartialEq)]
pub struct HandshakeResponse {
    pub channel: String,
    pub successful: bool,
    pub version: String,
    pub minimum_version: Option<String>,
    pub client_id: String,
    pub supported_connection_types: Vec<String>,
    pub advice: Option<Advice>,
    pub ext: Option<Json>,
    pub id: Option<String>,
    pub auth_successful: Option<bool>,
}

/// An errored frame. When it carries advice, the client may retry the
/// operation on its own.
#[derive(Debug, PartialEq)]
pub struct ErroredResponse {
    pub channel: String,
    pub successful: bool,
    pub error: String,
    pub client_id: Option<String>,
    pub subscription: Option<String>,
    pub advice: Option<Advice>,
    pub ext: Option<Json>,
    pub id: Option<String>,
}

/// The reply to a publish request.
#[derive(Debug, PartialEq)]
pub struct PublishResponse {
    pub channel: String,
    pub client_id: String,
    pub successful: bool,
    pub error: Option<String>,
    pub advice: Option<Advice>,
    pub ext: Option<Json>,
    pub data: Json,
    pub id: Option<String>,
}

/// A message delivered on a channel the client is subscribed to. It carries
/// no `successful` field, which is what distinguishes it on the wire.
#[derive(Debug, PartialEq)]
pub struct DeliveryResponse {
    pub channel: String,
    pub advice: Option<Advice>,
    pub data: Data,
    pub ext: Option<Json>,
    pub id: Option<String>,
}

/// The body of a delivery frame.
#[derive(Debug, PartialEq)]
pub struct Data {
    pub event: Event,
    pub payload: Json,
}

/// The replay marker of a delivered event.
#[derive(Clone, Copy, Debug, PartialEq, Eq)]
pub struct Event {
    pub replay_id: i64,
}

/// One classified frame from a protocol exchange.
#[derive(Debug, PartialEq)]
pub enum StreamResponse {
    ErroredResponse(ErroredResponse),
    /// The reply to a handshake request.
    Handshake(HandshakeResponse),
    /// The reply to a publish request.
    Publish(PublishResponse),
    /// A message delivered on a subscribed channel.
    Delivery(DeliveryResponse),
    /// Any frame that matches none of the other shapes.
    Basic(BasicResponse),
}

/// The mathematical shape of a [`BasicResponse`].
pub struct BasicResponseV {
    pub channel: Seq<char>,
    pub successful: bool,
    pub error: Option<Seq<char>>,
    pub advice: Option<Advice>,
    pub ext: Option<JsonV>,
    pub client_id: Option<Seq<char>>,
    pub id: Option<Seq<char>>,
}

/// The mathematical shape of a [`HandshakeResponse`].
pub struct HandshakeResponseV {
    pub channel: Seq<char>,
    pub successful: bool,
    pub version: Seq<char>,
    pub minimum_version: Option<Seq<char>>,
    pub client_id: Seq<char>,
    pub supported_connection_types: Seq<Seq<char>>,
    pub advice: Option<Advice>,
    pub ext: Option<JsonV>,
    pub id: Option<Seq<char>>,
    pub auth_successful: Option<bool>,
}

/// The mathematical shape of an [`ErroredResponse`].
pub struct ErroredResponseV {
    pub channel: Seq<char>,
    pub successful: bool,
    pub error: Seq<char>,
    pub client_id: Option<Seq<char>>,
    pub subscription: Option<Seq<char>>,
    pub advice: Option<Advice>,
    pub ext: Option<JsonV>,
    pub id: Option<Seq<char>>,
}

/// The mathematical shape of a [`PublishResponse`].
pub struct PublishResponseV {
    pub channel: Seq<char>,
    pub client_id: Seq<char>,
    pub successful: bool,
    pub error: Option<Seq<char>>,
    pub advice: Option<Advice>,
    pub ext: Option<JsonV>,
    pub data: JsonV,
    pub id: Option<Seq<char>>,
}

/// The mathematical shape of a [`DeliveryResponse`].
pub struct DeliveryResponseV {
    pub channel: Seq<char>,
    pub advice: Option<Advice>,
    pub data: DataV,
    pub ext: Option<JsonV>,
    pub id: Option<Seq<char>>,
}

/// The mathematical shape of a [`Data`].
pub struct DataV {
    pub event: Event,
    pub payload: JsonV,
}

/// The mathematical shape of a [`StreamResponse`].
pub enum StreamResponseV {
    ErroredResponse(ErroredResponseV),
    Handshake(HandshakeResponseV),
    Publish(PublishResponseV),
    Delivery(DeliveryResponseV),
    Basic(BasicResponseV),
}

impl DeepView for BasicResponse {
    type V = BasicResponseV;

    open spec fn deep_view(&self) -> BasicResponseV {
        BasicResponseV {
            channel: self.channel@,
            successful: self.successful,
            error: self.error.deep_view(),
            advice: self.advice,
            ext: self.ext.deep_view(),
            client_id: self.client_id.deep_view(),
            id: self.id.deep_view(),
        }
    }
}

impl DeepView for HandshakeResponse {
    type V = HandshakeResponseV;

    open spec fn deep_view(&self) -> HandshakeResponseV {
        HandshakeResponseV {
            channel: self.channel@,
            successful: self.successful,
            version: self.version@,
            minimum_version: self.minimum_version.deep_view(),
            client_id: self.client_id@,
            supported_connection_types: self.supported_connection_types.deep_view(),
            advice: self.advice,
            ext: self.ext.deep_view(),
            id: self.id.deep_view(),
            auth_successful: self.auth_successful,
        }
    }
}

impl DeepView for ErroredResponse {
    type V = ErroredResponseV;

    open spec fn deep_view(&self) -> ErroredResponseV {
        ErroredResponseV {
            channel: self.channel@,
            successful: self.successful,
            error: self.error@,
            client_id: self.client_id.deep_view(),
            subscription: self.subscription.deep_view(),
            advice: self.advice,
            ext: self.ext.deep_view(),
            id: self.id.deep_view(),
        }
    }
}

impl DeepView for PublishResponse {
    type V = PublishResponseV;

    open spec fn deep_view(&self) -> PublishResponseV {
        PublishResponseV {
            channel: self.channel@,
            client_id: self.client_id@,
            successful: self.successful,
            error: self.error.deep_view(),
            advice: self.advice,
            ext: self.ext.deep_view(),
            data: json_view(self.data),
            id: self.id.deep_view(),
        }
    }
}

impl DeepView for Data {
    type V = DataV;

    open spec fn deep_view(&self) -> DataV {
        DataV { event: self.event, payload: json_view(self.payload) }
    }
}

impl DeepView for DeliveryResponse {
    type V = DeliveryResponseV;

    open spec fn deep_view(&self) -> DeliveryResponseV {
        DeliveryResponseV {
            channel: self.channel@,
            advice: self.advice,
            data: self.data.deep_view(),
            ext: self.ext.deep_view(),
            id: self.id.deep_view(),
        }
    }
}

impl DeepView for StreamResponse {
    type V = StreamResponseV;

    open spec fn deep_view(&self) -> StreamResponseV {
        match self {
            StreamResponse::ErroredResponse(f) => StreamResponseV::ErroredResponse(f.deep_view()),
            StreamResponse::Handshake(f) => StreamResponseV::Handshake(f.deep_view()),
            StreamResponse::Publish(f) => StreamResponseV::Publish(f.deep_view()),
            StreamResponse::Delivery(f) => StreamResponseV::Delivery(f.deep_view()),
            StreamResponse::Basic(f) => StreamResponseV::Basic(f.deep_view()),
        }
    }
}

impl StreamResponseV {
    /// The advice of the four success shapes; an errored frame's advice is
    /// read from the variant itself, not through here.
    pub open spec fn embedded_advice(self) -> Option<Advice> {
        match self {
            StreamResponseV::Handshake(f) => f.advice,
            StreamResponseV::Publish(f) => f.advice,
            StreamResponseV::Delivery(f) => f.advice,
            StreamResponseV::Basic(f) => f.advice,
            StreamResponseV::ErroredResponse(_) => None,
        }
    }
}

impl StreamResponse {
    /// The advice the server embedded in a success frame, if any. For an
    /// errored frame this is `None`: its advice sits in the variant's own
    /// `advice` field.
    pub fn advice(&self) -> (r: Option<Advice>)
        ensures
            r == self.deep_view().embedded_advice(),
    {
        match self {
            StreamResponse::Handshake(f) => f.advice,
            StreamResponse::Publish(f) => f.advice,
            StreamResponse::Delivery(f) => f.advice,
            StreamResponse::Basic(f) => f.advice,
            StreamResponse::ErroredResponse(_) => None,
        }
    }
}

} // verus!
