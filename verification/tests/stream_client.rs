use rust_sync_force::errors::Error;
use rust_sync_force::json::Json;
use rust_sync_force::stream::client::Action;
use rust_sync_force::stream::CometdClient;
use rust_sync_force::stream::StreamResponse;

fn obj(entries: Vec<(&str, Json)>) -> Json {
    Json::Obj(entries.into_iter().map(|(k, v)| (k.to_string(), v)).collect())
}

fn s(x: &str) -> Json {
    Json::Str(x.to_string())
}

fn handshake_ok_frame() -> Json {
    obj(vec![
        ("channel", s("/meta/handshake")),
        ("version", s("1.0")),
        ("successful", Json::Bool(true)),
        ("clientId", s("1234")),
        ("supportedConnectionTypes", Json::Arr(vec![s("long-polling")])),
    ])
}

fn retry_errored_frame() -> Json {
    obj(vec![
        ("advice", obj(vec![("reconnect", s("retry"))])),
        ("channel", s("/meta/connect")),
        ("error", s("400::Error")),
        ("successful", Json::Bool(false)),
    ])
}

fn handshake_advice_frame() -> Json {
    obj(vec![
        ("advice", obj(vec![("reconnect", s("handshake"))])),
        ("channel", s("/meta/connect")),
        ("successful", Json::Bool(false)),
        ("error", s("error")),
    ])
}

fn expected_handshake_message() -> Json {
    obj(vec![
        ("channel", s("/meta/handshake")),
        ("version", s("1.0")),
        ("supportedConnectionTypes", Json::Arr(vec![s("long-polling")])),
    ])
}

fn expected_connect_message() -> Json {
    obj(vec![
        ("channel", s("/meta/connect")),
        ("clientId", s("1234")),
        ("connectionType", s("long-polling")),
    ])
}

fn client_with(subscriptions: Vec<String>, retries: i8) -> CometdClient {
    CometdClient::new(subscriptions).set_retries(retries)
}

/// Runs `init` against a scripted handshake reply and returns the final action.
fn init_with_reply(client: &mut CometdClient, reply: Vec<Json>) -> Action {
    let action = client.init();
    match action {
        Action::Send(msg) => {
            assert_eq!(msg, expected_handshake_message());
            client.on_exchange(Ok(reply))
        }
        other => other,
    }
}

#[test]
fn returns_error_on_failure() {
    let mut client = client_with(vec![], 3);
    let reply = vec![obj(vec![
        ("channel", s("/meta/handshake")),
        (
            "error",
            s("406::Unsupported version, or unsupported minimum version"),
        ),
        ("successful", Json::Bool(false)),
    ])];
    let action = init_with_reply(&mut client, reply);
    assert!(matches!(action, Action::Fail(_)));
}

#[test]
fn works() {
    let mut client = client_with(vec![], 3);
    let action = init_with_reply(&mut client, vec![handshake_ok_frame()]);
    assert!(matches!(action, Action::Done(_)));
}

#[test]
fn retries_if_server_advises_to() {
    const RETRIES_MAX: i8 = 3;
    let mut client = client_with(vec![], RETRIES_MAX);
    let action = init_with_reply(&mut client, vec![handshake_ok_frame()]);
    assert!(matches!(action, Action::Done(_)), "Could not init client");

    let mut connect_exchanges = 0;
    let mut action = client.connect();
    loop {
        match action {
            Action::Send(msg) => {
                assert_eq!(msg, expected_connect_message());
                connect_exchanges += 1;
                action = client.on_exchange(Ok(vec![retry_errored_frame()]));
            }
            Action::Done(_) => panic!("Connect should not return Ok"),
            Action::Fail(_) => break,
        }
    }
    assert_eq!(connect_exchanges, RETRIES_MAX as usize + 1);
}

#[test]
fn handshake_if_advises_to() {
    const RETRIES_MAX: i8 = 3;
    let mut client = client_with(vec![], RETRIES_MAX);
    let action = init_with_reply(&mut client, vec![handshake_ok_frame()]);
    assert!(matches!(action, Action::Done(_)), "Could not init client");
    let mut handshake_exchanges = 1; // init's own handshake

    let mut action = client.connect();
    loop {
        match action {
            Action::Send(msg) => {
                if msg == expected_handshake_message() {
                    handshake_exchanges += 1;
                    action = client.on_exchange(Ok(vec![handshake_ok_frame()]));
                } else {
                    assert_eq!(msg, expected_connect_message());
                    action = client.on_exchange(Ok(vec![handshake_advice_frame()]));
                }
            }
            Action::Done(_) => panic!("Connect should not return Ok"),
            Action::Fail(_) => break,
        }
    }
    // Handshake + Connect, then per cycle: retry handshake and connect again,
    // until the shared budget is spent.
    assert_eq!(handshake_exchanges, RETRIES_MAX as usize);
}

// Scenario: a successful handshake stores the session id, and a subsequent
// subscribe exchange carries that clientId.
#[test]
fn init_stores_session_and_subscribes_with_it() {
    let mut client = client_with(vec!["/topic/A".to_string()], 3);
    let action = client.init();
    let action = match action {
        Action::Send(msg) => {
            assert_eq!(msg, expected_handshake_message());
            client.on_exchange(Ok(vec![handshake_ok_frame()]))
        }
        other => other,
    };
    assert_eq!(client.session_id().map(|s| s.as_str()), Some("1234"));
    // The subscribe exchange follows, carrying the stored clientId.
    let action = match action {
        Action::Send(msg) => {
            assert_eq!(
                msg,
                obj(vec![
                    ("channel", s("/meta/subscribe")),
                    ("clientId", s("1234")),
                    ("subscription", s("/topic/A")),
                ])
            );
            client.on_exchange(Ok(vec![obj(vec![
                ("channel", s("/meta/subscribe")),
                ("successful", Json::Bool(true)),
            ])]))
        }
        other => other,
    };
    match action {
        Action::Done(frames) => {
            // The returned batch is the handshake exchange's frames.
            assert_eq!(frames.len(), 1);
            assert!(matches!(frames[0], StreamResponse::Handshake(_)));
        }
        other => panic!("init did not finish: {:?}", other),
    }
}

// Scenario: constant `retry` advice with maxRetries = 3 ends in a protocol
// error carrying the server's message, after exactly four exchanges.
#[test]
fn connect_fails_after_exhausting_retry_budget() {
    let mut client = client_with(vec![], 3);
    let action = init_with_reply(&mut client, vec![handshake_ok_frame()]);
    assert!(matches!(action, Action::Done(_)));

    let mut exchanges = 0;
    let mut action = client.connect();
    let failure = loop {
        match action {
            Action::Send(_) => {
                exchanges += 1;
                action = client.on_exchange(Ok(vec![retry_errored_frame()]));
            }
            Action::Done(_) => panic!("Connect should not return Ok"),
            Action::Fail(e) => break e,
        }
    };
    assert_eq!(exchanges, 4);
    assert_eq!(failure, Error::ProtocolError("400::Error".to_string()));
}

// Scenario: `handshake` advice makes the client re-handshake, re-subscribe
// every registered topic, and then retry the original connect.
#[test]
fn handshake_advice_resubscribes_then_retries_connect() {
    let mut client = client_with(vec!["/topic/A".to_string()], 3);
    let action = client.init();
    let action = match action {
        Action::Send(_) => client.on_exchange(Ok(vec![handshake_ok_frame()])),
        other => other,
    };
    let action = match action {
        Action::Send(_) => client.on_exchange(Ok(vec![obj(vec![
            ("channel", s("/meta/subscribe")),
            ("successful", Json::Bool(true)),
        ])])),
        other => other,
    };
    assert!(matches!(action, Action::Done(_)));

    // connect -> advice handshake
    let action = client.connect();
    let action = match action {
        Action::Send(msg) => {
            assert_eq!(msg, expected_connect_message());
            client.on_exchange(Ok(vec![handshake_advice_frame()]))
        }
        other => panic!("expected the connect exchange: {:?}", other),
    };
    // fresh handshake
    let action = match action {
        Action::Send(msg) => {
            assert_eq!(msg, expected_handshake_message());
            client.on_exchange(Ok(vec![handshake_ok_frame()]))
        }
        other => panic!("expected a fresh handshake: {:?}", other),
    };
    // re-subscribe the registered topic
    let action = match action {
        Action::Send(msg) => {
            assert_eq!(
                msg,
                obj(vec![
                    ("channel", s("/meta/subscribe")),
                    ("clientId", s("1234")),
                    ("subscription", s("/topic/A")),
                ])
            );
            client.on_exchange(Ok(vec![obj(vec![
                ("channel", s("/meta/subscribe")),
                ("successful", Json::Bool(true)),
            ])]))
        }
        other => panic!("expected a re-subscribe: {:?}", other),
    };
    // retry of the original connect, now succeeding
    let action = match action {
        Action::Send(msg) => {
            assert_eq!(msg, expected_connect_message());
            client.on_exchange(Ok(vec![obj(vec![
                ("channel", s("/meta/connect")),
                ("successful", Json::Bool(true)),
            ])]))
        }
        other => panic!("expected the retried connect: {:?}", other),
    };
    match action {
        Action::Done(frames) => {
            assert_eq!(frames.len(), 1);
            assert!(matches!(frames[0], StreamResponse::Basic(_)));
        }
        other => panic!("connect did not finish: {:?}", other),
    }
}

// Alternating `handshake` and `retry` advice draws on one shared budget, so
// the mix exhausts it faster than either policy alone.
#[test]
fn alternating_advice_shares_one_budget() {
    let mut client = client_with(vec![], 3);
    let action = init_with_reply(&mut client, vec![handshake_ok_frame()]);
    assert!(matches!(action, Action::Done(_)));

    let mut exchanges = 0;
    let mut next_is_handshake_advice = true;
    let mut action = client.connect();
    loop {
        match action {
            Action::Send(msg) => {
                exchanges += 1;
                if msg == expected_handshake_message() {
                    action = client.on_exchange(Ok(vec![handshake_ok_frame()]));
                } else if next_is_handshake_advice {
                    next_is_handshake_advice = false;
                    action = client.on_exchange(Ok(vec![handshake_advice_frame()]));
                } else {
                    next_is_handshake_advice = true;
                    action = client.on_exchange(Ok(vec![retry_errored_frame()]));
                }
            }
            Action::Done(_) => panic!("Connect should not return Ok"),
            Action::Fail(_) => break,
        }
    }
    // connect(1), handshake(2), connect(3), connect(4) — then the budget of
    // three is spent and the next cycle is refused.
    assert_eq!(exchanges, 4);
}

#[test]
fn operations_without_session_fail_fast() {
    let mut client = CometdClient::new(vec!["/topic/A".to_string()]);
    assert!(matches!(client.connect(), Action::Fail(Error::NoSession)));
    assert!(matches!(client.disconnect(), Action::Fail(Error::NoSession)));
    assert!(matches!(client.subscribe(), Action::Fail(Error::NoSession)));
    assert!(matches!(
        client.unsubscribe("/topic/A"),
        Action::Fail(Error::NoSession)
    ));
    assert!(matches!(
        client.publish("/topic/A", Json::Null),
        Action::Fail(Error::NoSession)
    ));
}

#[test]
fn transport_failure_is_never_retried() {
    let mut client = client_with(vec![], 3);
    let action = init_with_reply(&mut client, vec![handshake_ok_frame()]);
    assert!(matches!(action, Action::Done(_)));

    let action = client.connect();
    let action = match action {
        Action::Send(_) => client.on_exchange(Err(Error::TransportFailure(
            "503 service unavailable".to_string(),
        ))),
        other => panic!("expected the connect exchange: {:?}", other),
    };
    assert_eq!(
        action,
        Action::Fail(Error::TransportFailure(
            "503 service unavailable".to_string()
        ))
    );
}

#[test]
fn unclassifiable_reply_is_malformed() {
    let mut client = client_with(vec![], 3);
    let action = init_with_reply(&mut client, vec![handshake_ok_frame()]);
    assert!(matches!(action, Action::Done(_)));

    let action = client.connect();
    let action = match action {
        Action::Send(_) => {
            client.on_exchange(Ok(vec![obj(vec![("channel", Json::Int(5))])]))
        }
        other => panic!("expected the connect exchange: {:?}", other),
    };
    assert_eq!(action, Action::Fail(Error::MalformedResponse));
}

#[test]
fn errored_frame_without_advice_fails_with_server_message() {
    let mut client = client_with(vec![], 3);
    let action = init_with_reply(&mut client, vec![handshake_ok_frame()]);
    assert!(matches!(action, Action::Done(_)));

    let action = client.connect();
    let action = match action {
        Action::Send(_) => client.on_exchange(Ok(vec![obj(vec![
            ("channel", s("/meta/connect")),
            ("successful", Json::Bool(false)),
            ("error", s("401::Authentication invalid")),
        ])])),
        other => panic!("expected the connect exchange: {:?}", other),
    };
    assert_eq!(
        action,
        Action::Fail(Error::ProtocolError(
            "Not retrying because the server did not provide advice401::Authentication invalid"
                .to_string()
        ))
    );
}

#[test]
fn disconnect_keeps_local_session_id() {
    let mut client = client_with(vec![], 3);
    let action = init_with_reply(&mut client, vec![handshake_ok_frame()]);
    assert!(matches!(action, Action::Done(_)));

    let action = client.disconnect();
    let action = match action {
        Action::Send(msg) => {
            assert_eq!(
                msg,
                obj(vec![
                    ("channel", s("/meta/disconnect")),
                    ("clientId", s("1234")),
                ])
            );
            client.on_exchange(Ok(vec![obj(vec![
                ("channel", s("/meta/disconnect")),
                ("successful", Json::Bool(true)),
            ])]))
        }
        other => panic!("expected the disconnect exchange: {:?}", other),
    };
    assert!(matches!(action, Action::Done(_)));
    assert_eq!(client.session_id().map(|s| s.as_str()), Some("1234"));
}

#[test]
fn publish_carries_channel_client_and_data() {
    let mut client = client_with(vec![], 3);
    let action = init_with_reply(&mut client, vec![handshake_ok_frame()]);
    assert!(matches!(action, Action::Done(_)));

    let data = obj(vec![("value", Json::Int(7))]);
    let action = client.publish("/topic/A", data);
    match action {
        Action::Send(msg) => {
            assert_eq!(
                msg,
                obj(vec![
                    ("channel", s("/topic/A")),
                    ("clientId", s("1234")),
                    ("data", obj(vec![("value", Json::Int(7))])),
                ])
            );
        }
        other => panic!("expected the publish exchange: {:?}", other),
    }
}

#[test]
fn unsubscribe_sends_the_topic() {
    let mut client = client_with(vec![], 3);
    let action = init_with_reply(&mut client, vec![handshake_ok_frame()]);
    assert!(matches!(action, Action::Done(_)));

    let action = client.unsubscribe("/topic/A");
    match action {
        Action::Send(msg) => {
            assert_eq!(
                msg,
                obj(vec![
                    ("channel", s("/meta/unsubscribe")),
                    ("clientId", s("1234")),
                    ("subscription", s("/topic/A")),
                ])
            );
        }
        other => panic!("expected the unsubscribe exchange: {:?}", other),
    }
}

#[test]
fn empty_reply_finishes_with_no_frames() {
    let mut client = client_with(vec![], 3);
    let action = init_with_reply(&mut client, vec![handshake_ok_frame()]);
    assert!(matches!(action, Action::Done(_)));

    let action = client.connect();
    let action = match action {
        Action::Send(_) => client.on_exchange(Ok(vec![])),
        other => panic!("expected the connect exchange: {:?}", other),
    };
    match action {
        Action::Done(frames) => assert_eq!(frames.len(), 0),
        other => panic!("connect did not finish: {:?}", other),
    }
}

#[test]
fn subscribe_with_no_topics_finishes_without_exchanges() {
    let mut client = client_with(vec![], 3);
    let action = init_with_reply(&mut client, vec![handshake_ok_frame()]);
    assert!(matches!(action, Action::Done(_)));

    match client.subscribe() {
        Action::Done(frames) => assert_eq!(frames.len(), 0),
        other => panic!("subscribe should finish at once: {:?}", other),
    }
}

// Frames produced by a recovery are spliced in before the rest of the batch
// that triggered it.
#[test]
fn recovered_frames_come_before_the_rest_of_the_batch() {
    let mut client = client_with(vec![], 3);
    let action = init_with_reply(&mut client, vec![handshake_ok_frame()]);
    assert!(matches!(action, Action::Done(_)));

    let action = client.connect();
    let action = match action {
        Action::Send(_) => client.on_exchange(Ok(vec![
            retry_errored_frame(),
            obj(vec![("channel", s("/b")), ("successful", Json::Bool(true))]),
        ])),
        other => panic!("expected the connect exchange: {:?}", other),
    };
    // The retried connect succeeds with one frame of its own.
    let action = match action {
        Action::Send(msg) => {
            assert_eq!(msg, expected_connect_message());
            client.on_exchange(Ok(vec![obj(vec![
                ("channel", s("/a")),
                ("successful", Json::Bool(true)),
            ])]))
        }
        other => panic!("expected the retried connect: {:?}", other),
    };
    match action {
        Action::Done(frames) => {
            let channels: Vec<&str> = frames
                .iter()
                .map(|f| match f {
                    StreamResponse::Basic(b) => b.channel.as_str(),
                    other => panic!("unexpected frame: {:?}", other),
                })
                .collect();
            assert_eq!(channels, vec!["/a", "/b"]);
        }
        other => panic!("connect did not finish: {:?}", other),
    }
}

// Even a successful frame triggers recovery when it embeds advice.
#[test]
fn advice_on_a_success_frame_triggers_recovery() {
    let mut client = client_with(vec![], 3);
    let action = init_with_reply(&mut client, vec![handshake_ok_frame()]);
    assert!(matches!(action, Action::Done(_)));

    let action = client.connect();
    let action = match action {
        Action::Send(_) => client.on_exchange(Ok(vec![obj(vec![
            ("channel", s("/meta/connect")),
            ("successful", Json::Bool(true)),
            ("advice", obj(vec![("reconnect", s("retry"))])),
        ])])),
        other => panic!("expected the connect exchange: {:?}", other),
    };
    match action {
        Action::Send(msg) => assert_eq!(msg, expected_connect_message()),
        other => panic!("expected a retried connect: {:?}", other),
    }
}

// Advice whose reconnect word is "none" ends the operation at once, with the
// generic message when the server names no error.
#[test]
fn stop_advice_fails_without_retrying() {
    let mut client = client_with(vec![], 3);
    let action = init_with_reply(&mut client, vec![handshake_ok_frame()]);
    assert!(matches!(action, Action::Done(_)));

    let action = client.connect();
    let action = match action {
        Action::Send(_) => client.on_exchange(Ok(vec![obj(vec![
            ("channel", s("/meta/connect")),
            ("successful", Json::Bool(true)),
            ("advice", obj(vec![("reconnect", s("none"))])),
        ])])),
        other => panic!("expected the connect exchange: {:?}", other),
    };
    assert_eq!(
        action,
        Action::Fail(Error::ProtocolError(
            "Service advised not to reconnect nor handshake".to_string()
        ))
    );
}
