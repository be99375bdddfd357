use phoenix::frame::Envelope;
use phoenix::json::Json;
use phoenix::session::{Action, BroadcastEnvelope, Channel, Outbound, Socket};

fn text(x: &str) -> Json {
    Json::Str(x.to_string())
}

fn object(fields: Vec<(&str, Json)>) -> Json {
    Json::Object(fields.into_iter().map(|(k, v)| (k.to_string(), v)).collect())
}

fn frame(join_ref: Json, msg_ref: Json, topic: Json, event: &str, payload: Json) -> Envelope {
    Envelope { join_ref, msg_ref, topic, event: event.to_string(), payload }
}

fn ok_reply(join_ref: &str, msg_ref: &str, topic: &str) -> Outbound {
    Outbound::Send(frame(
        text(join_ref),
        text(msg_ref),
        text(topic),
        "phx_reply",
        object(vec![("response", object(vec![])), ("status", text("ok"))]),
    ))
}

fn joined(id: &str) -> Socket {
    let mut s = Socket::with_id(id.to_string());
    s.receive(frame(text("1"), text("1"), text("room:lobby"), "phx_join", object(vec![])));
    s
}

#[test]
fn join_replies_ok() {
    let mut s = Socket::with_id("a".to_string());
    let out = s.receive(frame(text("1"), text("1"), text("room:lobby"), "phx_join", object(vec![])));
    assert_eq!(out, vec![ok_reply("1", "1", "room:lobby")]);
    assert!(s.has_channel(&"room:lobby".to_string()));
    assert_eq!(s.channel_count(), 1);
}

#[test]
fn join_twice_keeps_one_channel() {
    let mut s = joined("a");
    let out = s.receive(frame(text("1"), text("1"), text("room:lobby"), "phx_join", object(vec![])));
    assert_eq!(out, vec![ok_reply("1", "1", "room:lobby")]);
    assert_eq!(s.channel_count(), 1);
}

#[test]
fn join_without_references_creates_channel_and_replies() {
    let mut s = Socket::with_id("a".to_string());
    let out = s.receive(frame(Json::Null, text("1"), text("room:lobby"), "phx_join", object(vec![])));
    let reply = Outbound::Send(frame(
        Json::Null,
        text("1"),
        text("room:lobby"),
        "phx_reply",
        object(vec![("response", object(vec![])), ("status", text("ok"))]),
    ));
    assert_eq!(out, vec![reply]);
    assert_eq!(s.channel_count(), 1);
    let out = s.receive(frame(Json::Null, text("2"), text("room:lobby"), "phx_leave", object(vec![])));
    assert_eq!(out.len(), 2);
    let close = Outbound::Send(frame(Json::Null, text("1"), text("room:lobby"), "phx_close", object(vec![])));
    assert_eq!(out[1], close);
}

#[test]
fn repeated_join_with_null_reference_replies() {
    let mut s = joined("a");
    let out = s.receive(frame(Json::Null, text("2"), text("room:lobby"), "phx_join", object(vec![])));
    let reply = Outbound::Send(frame(
        Json::Null,
        text("2"),
        text("room:lobby"),
        "phx_reply",
        object(vec![("response", object(vec![])), ("status", text("ok"))]),
    ));
    assert_eq!(out, vec![reply]);
    assert_eq!(s.channel_count(), 1);
    let out = s.receive(frame(text("1"), text("3"), text("room:lobby"), "phx_leave", object(vec![])));
    let close = Outbound::Send(frame(text("1"), text("1"), text("room:lobby"), "phx_close", object(vec![])));
    assert_eq!(out[1], close);
}

#[test]
fn leave_replies_then_closes() {
    let mut s = joined("a");
    let out = s.receive(frame(text("1"), text("3"), text("room:lobby"), "phx_leave", object(vec![])));
    let close = Outbound::Send(frame(text("1"), text("1"), text("room:lobby"), "phx_close", object(vec![])));
    assert_eq!(out, vec![ok_reply("1", "3", "room:lobby"), close]);
    assert_eq!(s.channel_count(), 0);
}

#[test]
fn leave_of_unjoined_topic_is_silent() {
    let mut s = joined("a");
    let out = s.receive(frame(text("1"), text("4"), text("room:other"), "phx_leave", object(vec![])));
    assert_eq!(out, vec![]);
    assert_eq!(s.channel_count(), 1);
}

#[test]
fn heartbeat_on_phoenix_replies_once() {
    let mut s = Socket::with_id("a".to_string());
    let out = s.receive(frame(Json::Null, text("7"), text("phoenix"), "heartbeat", object(vec![])));
    let reply = Outbound::Send(frame(
        Json::Null,
        text("7"),
        text("phoenix"),
        "phx_reply",
        object(vec![("response", object(vec![])), ("status", text("ok"))]),
    ));
    assert_eq!(out, vec![reply]);
}

#[test]
fn heartbeat_on_other_topic_is_dropped() {
    let mut s = Socket::with_id("a".to_string());
    let out = s.receive(frame(Json::Null, text("7"), text("room:lobby"), "heartbeat", object(vec![])));
    assert_eq!(out, vec![]);
    let out = s.receive(frame(Json::Null, text("8"), Json::Null, "heartbeat", object(vec![])));
    assert_eq!(out, vec![]);
}

#[test]
fn event_reaches_others_twice_and_sender_once() {
    let mut a = joined("a");
    let b = joined("b");
    let out = a.receive(frame(text("1"), text("2"), text("room:lobby"), "msg", object(vec![("text", text("hi"))])));
    assert_eq!(out.len(), 2);
    let published: Vec<BroadcastEnvelope> = out
        .into_iter()
        .map(|o| match o {
            Outbound::Publish(b) => b,
            Outbound::Send(_) => panic!("a generic event is published, not sent"),
        })
        .collect();
    assert_eq!(published[0].action, Action::Broadcast);
    assert_eq!(published[0].from, None);
    assert_eq!(published[1].action, Action::BroadcastFrom);
    assert_eq!(published[1].from, Some("a".to_string()));

    let to_b: Vec<Envelope> = published.iter().filter_map(|p| b.deliver(p.clone())).collect();
    assert_eq!(to_b.len(), 2);
    assert_eq!(to_b[0].event, "boardcast");
    assert_eq!(to_b[1].event, "boardcast_from");
    assert_eq!(to_b[0].payload, object(vec![("text", text("hi"))]));
    assert_eq!(to_b[1].payload, object(vec![("text", text("hi"))]));
    assert_eq!(to_b[0].join_ref, text("1"));
    assert_eq!(to_b[0].msg_ref, Json::Null);
    assert_eq!(to_b[0].topic, text("room:lobby"));

    let to_a: Vec<Envelope> = published.iter().filter_map(|p| a.deliver(p.clone())).collect();
    assert_eq!(to_a.len(), 1);
    assert_eq!(to_a[0].event, "boardcast");
    assert_eq!(to_a[0].payload, object(vec![("text", text("hi"))]));
}

#[test]
fn event_without_topic_publishes_nothing() {
    let mut s = Socket::with_id("a".to_string());
    let out = s.receive(frame(Json::Null, Json::Null, Json::Null, "msg", object(vec![])));
    assert_eq!(out, vec![]);
}

#[test]
fn broadcast_from_without_sender_is_forwarded() {
    let s = Socket::with_id("a".to_string());
    let payload = frame(Json::Null, Json::Null, text("t"), "e", Json::Null);
    let b = BroadcastEnvelope { action: Action::BroadcastFrom, from: None, payload: payload.clone() };
    assert_eq!(s.deliver(b), Some(payload));
}

#[test]
fn header_of_other_type_leaves_cursor() {
    let mut s = Socket::with_id("a".to_string());
    s.receive(frame(text("1"), text("1"), text("room:lobby"), "phx_join", object(vec![])));
    s.update(&frame(Json::Bool(true), Json::Number("5".to_string()), Json::Null, "x", Json::Null));
    assert_eq!(s.topic(), None);
    let pushed = s.push("ev", Json::Null);
    assert_eq!(pushed, frame(text("1"), text("1"), Json::Null, "ev", Json::Null));
}

#[test]
fn reply_error_keeps_response() {
    let mut s = Socket::with_id("a".to_string());
    s.update(&frame(text("1"), text("9"), text("room:lobby"), "x", Json::Null));
    let r = s.reply_error(object(vec![("reason", text("unauthorized"))]));
    let expected = frame(
        text("1"),
        text("9"),
        text("room:lobby"),
        "phx_reply",
        object(vec![("response", object(vec![("reason", text("unauthorized"))])), ("status", text("error"))]),
    );
    assert_eq!(r, expected);
}

#[test]
fn close_uses_channel_references() {
    let s = Socket::with_id("a".to_string());
    let c = Channel::new("room:x".to_string(), "4".to_string(), "5".to_string());
    let close = s.close_channel(c);
    assert_eq!(close, frame(text("4"), text("5"), text("room:x"), "phx_close", object(vec![])));
}

#[test]
fn new_sockets_get_distinct_identifiers() {
    let a = Socket::new();
    let b = Socket::new();
    assert_eq!(a.id().len(), 36);
    assert_ne!(a.id(), b.id());
    assert_eq!(a.channel_count(), 0);
    assert_eq!(a.topic(), None);
}

#[test]
fn assigns_start_null_and_can_be_set() {
    let mut s = Socket::with_id("a".to_string());
    assert_eq!(s.assigns(), &Json::Null);
    s.assign(object(vec![("user", text("u1"))]));
    assert_eq!(s.assigns(), &object(vec![("user", text("u1"))]));
}
