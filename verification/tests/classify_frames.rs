use rust_sync_force::errors::Error;
use rust_sync_force::json::Json;
use rust_sync_force::stream::advice::Reconnect;
use rust_sync_force::stream::classify::{classify, classify_frame};
use rust_sync_force::stream::StreamResponse;

fn obj(entries: Vec<(&str, Json)>) -> Json {
    Json::Obj(entries.into_iter().map(|(k, v)| (k.to_string(), v)).collect())
}

fn s(x: &str) -> Json {
    Json::Str(x.to_string())
}

// Scenario: a delivery frame with no `advice` and no `successful` field
// classifies as Delivery, not Basic.
#[test]
fn delivery_frame_classifies_as_delivery_not_basic() {
    let frame = obj(vec![
        ("channel", s("/topic/X")),
        (
            "data",
            obj(vec![
                ("event", obj(vec![("replayId", Json::Int(5))])),
                ("payload", obj(vec![("name", s("foo"))])),
            ]),
        ),
    ]);
    match classify_frame(&frame) {
        Ok(StreamResponse::Delivery(d)) => {
            assert_eq!(d.channel, "/topic/X");
            assert_eq!(d.data.event.replay_id, 5);
        }
        other => panic!("expected a delivery frame: {:?}", other),
    }
}

#[test]
fn errored_frame_takes_priority_over_basic() {
    // Structurally this also fits the basic shape; the error field with
    // `successful` decides, and it must be tried first.
    let frame = obj(vec![
        ("channel", s("/meta/connect")),
        ("successful", Json::Bool(false)),
        ("error", s("400::Error")),
        (
            "advice",
            obj(vec![("reconnect", s("retry")), ("interval", Json::Int(0))]),
        ),
    ]);
    match classify_frame(&frame) {
        Ok(StreamResponse::ErroredResponse(e)) => {
            assert_eq!(e.error, "400::Error");
            let advice = e.advice.expect("advice should be kept");
            assert_eq!(advice.reconnect, Reconnect::Retry);
            assert_eq!(advice.interval, Some(0));
            assert_eq!(advice.timeout, None);
        }
        other => panic!("expected an errored frame: {:?}", other),
    }
}

#[test]
fn handshake_frame_classifies_with_all_fields() {
    let frame = obj(vec![
        ("channel", s("/meta/handshake")),
        ("version", s("1.0")),
        ("successful", Json::Bool(true)),
        ("clientId", s("1234")),
        (
            "supportedConnectionTypes",
            Json::Arr(vec![s("long-polling"), s("callback-polling")]),
        ),
    ]);
    match classify_frame(&frame) {
        Ok(StreamResponse::Handshake(h)) => {
            assert!(h.successful);
            assert_eq!(h.client_id, "1234");
            assert_eq!(h.version, "1.0");
            assert_eq!(
                h.supported_connection_types,
                vec!["long-polling".to_string(), "callback-polling".to_string()]
            );
        }
        other => panic!("expected a handshake frame: {:?}", other),
    }
}

#[test]
fn publish_ack_classifies_as_publish() {
    let frame = obj(vec![
        ("channel", s("/topic/X")),
        ("clientId", s("1234")),
        ("successful", Json::Bool(true)),
        ("data", obj(vec![("anything", Json::Bool(true))])),
    ]);
    match classify_frame(&frame) {
        Ok(StreamResponse::Publish(p)) => {
            assert!(p.successful);
            assert_eq!(p.client_id, "1234");
        }
        other => panic!("expected a publish frame: {:?}", other),
    }
}

#[test]
fn plain_acknowledgement_classifies_as_basic() {
    let frame = obj(vec![
        ("channel", s("/meta/subscribe")),
        ("successful", Json::Bool(true)),
        ("clientId", s("1234")),
        ("id", s("7")),
    ]);
    match classify_frame(&frame) {
        Ok(StreamResponse::Basic(b)) => {
            assert!(b.successful);
            assert_eq!(b.client_id.as_deref(), Some("1234"));
            assert_eq!(b.id.as_deref(), Some("7"));
            assert_eq!(b.error, None);
        }
        other => panic!("expected a basic frame: {:?}", other),
    }
}

#[test]
fn unrecognized_shape_is_malformed_not_basic() {
    // No channel at all: none of the five shapes matches.
    assert_eq!(
        classify_frame(&obj(vec![("foo", Json::Int(1))])),
        Err(Error::MalformedResponse)
    );
    // A channel of the wrong type.
    assert_eq!(
        classify_frame(&obj(vec![
            ("channel", Json::Int(5)),
            ("successful", Json::Bool(true)),
        ])),
        Err(Error::MalformedResponse)
    );
    // A reconnect word no advice may carry poisons every shape that would
    // otherwise match.
    assert_eq!(
        classify_frame(&obj(vec![
            ("channel", s("/meta/connect")),
            ("successful", Json::Bool(false)),
            ("error", s("400::Error")),
            ("advice", obj(vec![("reconnect", s("sometimes"))])),
        ])),
        Err(Error::MalformedResponse)
    );
    // Not an object at all.
    assert_eq!(classify_frame(&s("hello")), Err(Error::MalformedResponse));
}

#[test]
fn classification_is_deterministic() {
    let frame = obj(vec![
        ("channel", s("/meta/connect")),
        ("successful", Json::Bool(true)),
    ]);
    let first = classify_frame(&frame);
    let second = classify_frame(&frame);
    assert_eq!(first, second);
}

#[test]
fn batch_classification_keeps_order_and_fails_on_one_bad_frame() {
    let good = vec![
        obj(vec![
            ("channel", s("/meta/connect")),
            ("successful", Json::Bool(true)),
        ]),
        obj(vec![
            ("channel", s("/topic/X")),
            (
                "data",
                obj(vec![
                    ("event", obj(vec![("replayId", Json::Int(9))])),
                    ("payload", Json::Null),
                ]),
            ),
        ]),
    ];
    match classify(&good) {
        Ok(frames) => {
            assert_eq!(frames.len(), 2);
            assert!(matches!(frames[0], StreamResponse::Basic(_)));
            assert!(matches!(frames[1], StreamResponse::Delivery(_)));
        }
        other => panic!("expected two frames: {:?}", other),
    }

    let with_bad = vec![
        obj(vec![
            ("channel", s("/meta/connect")),
            ("successful", Json::Bool(true)),
        ]),
        obj(vec![("oops", Json::Null)]),
    ];
    assert_eq!(classify(&with_bad), Err(Error::MalformedResponse));
}

#[test]
fn delivery_requires_integral_replay_id() {
    let frame = obj(vec![
        ("channel", s("/topic/X")),
        (
            "data",
            obj(vec![
                ("event", obj(vec![("replayId", s("five"))])),
                ("payload", Json::Null),
            ]),
        ),
    ]);
    // Without a usable replayId the frame fits no shape: there is no
    // `successful` field for the basic shape either.
    assert_eq!(classify_frame(&frame), Err(Error::MalformedResponse));
}

#[test]
fn json_lookup_reads_first_binding() {
    let v = obj(vec![("a", Json::Int(1)), ("b", Json::Int(2))]);
    assert_eq!(v.get("a"), Some(&Json::Int(1)));
    assert_eq!(v.get("b"), Some(&Json::Int(2)));
    assert_eq!(v.get("c"), None);
    assert_eq!(Json::Null.get("a"), None);
}

// With `successful` true, an error text alone does not make a frame errored:
// that combination reads as the basic shape carrying an error field.
#[test]
fn successful_frame_with_error_text_is_basic() {
    let frame = obj(vec![
        ("channel", s("/meta/subscribe")),
        ("successful", Json::Bool(true)),
        ("error", s("ignored")),
    ]);
    match classify_frame(&frame) {
        Ok(StreamResponse::Basic(b)) => {
            assert!(b.successful);
            assert_eq!(b.error.as_deref(), Some("ignored"));
        }
        other => panic!("expected a basic frame: {:?}", other),
    }
}
