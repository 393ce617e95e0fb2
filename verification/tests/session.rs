use dichonoia::error::{DecodeError, GatewayError};
use dichonoia::gateway::envelope::{DispatchPayload, GatewayPayload};
use dichonoia::gateway::events::partial_application::{ApplicationFlags, PartialApplication};
use dichonoia::gateway::events::ready::Ready;
use dichonoia::gateway::events::GatewayEvent;
use dichonoia::gateway::intents::{GatewayIntents, GUILDS};
use dichonoia::gateway::payload::{HelloPayload, IdentifyProperties};
use dichonoia::id::{ApplicationId, UserId};
use dichonoia::json::JsonValue;
use dichonoia::ratelimit::token_bucket::TokenBucket;
use dichonoia::session::{
    closes_for_good, Credentials, Phase, Reaction, Session, Timer, Transport, GATEWAY_URL,
};
use dichonoia::user::User;

fn session_with_quota(quota: usize) -> Session {
    let credentials = Credentials {
        token: String::from("secret"),
        intents: GatewayIntents::from_bits(GUILDS).unwrap(),
        properties: IdentifyProperties {
            os: String::from("linux"),
            browser: String::from("dichonoia"),
            device: String::from("dichonoia"),
        },
    };
    Session::new(credentials, TokenBucket::new(quota, 3_600_000).unwrap())
}

fn ready(session_id: &str) -> GatewayEvent {
    GatewayEvent::Ready(Ready {
        version: 10,
        user: User {
            id: UserId::new_nonzero(1),
            username: String::from("bot"),
            discriminator: None,
            global_name: None,
            avatar: None,
            bot: Some(true),
            system: None,
        },
        guilds: Vec::new(),
        session_id: String::from(session_id),
        resume_gateway_url: String::from("wss://resume.example/"),
        shard: None,
        application: PartialApplication::new(
            ApplicationId::new_nonzero(2),
            ApplicationFlags::from_bits(0).unwrap(),
        ),
    })
}

fn dispatch(event: GatewayEvent, sequence: i64) -> GatewayPayload {
    GatewayPayload::Dispatch(DispatchPayload { data: event, sequence })
}

fn unknown(name: &str) -> GatewayEvent {
    GatewayEvent::Unknown { name: String::from(name), data: JsonValue::Null }
}

fn is_quiet(reaction: &Reaction) -> bool {
    matches!(reaction.transport, Transport::Keep)
        && reaction.heartbeat == Timer::Keep
        && reaction.send.is_none()
        && reaction.deliver.is_none()
        && reaction.retry_after.is_none()
        && reaction.error.is_none()
}

/// A session taken through connect, handshake (interval 5 s, at time 1000)
/// and `Ready` (session `abc`, sequence 42, at time 1100).
fn connected(quota: usize) -> Session {
    let mut session = session_with_quota(quota);
    session.connect();
    session.on_transport_opened();
    session.on_payload(GatewayPayload::Hello(HelloPayload { heartbeat_interval: 5000 }), 1000, 0);
    session.on_payload(dispatch(ready("abc"), 42), 1100, 0);
    assert_eq!(session.phase(), Phase::Connected);
    session
}

#[test]
fn a_new_session_is_disconnected() {
    let session = session_with_quota(120);
    assert_eq!(session.phase(), Phase::Disconnected);
    assert_eq!(session.state().session_id, None);
    assert_eq!(session.state().last_sequence, None);
    assert!(!session.is_active());
    assert_eq!(session.url(), GATEWAY_URL);
}

#[test]
fn connect_opens_a_transport_to_the_gateway() {
    let mut session = session_with_quota(120);
    let reaction = session.connect();
    assert_eq!(session.phase(), Phase::Connecting);
    assert!(matches!(&reaction.transport, Transport::Open { url } if url == "wss://gateway.discord.gg/?v=10&encoding=json"));
    assert!(reaction.send.is_none());
    assert!(is_quiet(&session.connect()));
    assert_eq!(session.phase(), Phase::Connecting);
}

#[test]
fn a_transport_that_fails_is_tried_again_with_a_growing_wait() {
    let mut session = session_with_quota(120);
    session.connect();
    let waits: Vec<Option<u64>> = (0..8).map(|_| session.on_transport_failed().retry_after).collect();
    assert_eq!(
        waits,
        vec![Some(1000), Some(2000), Some(4000), Some(8000), Some(16000), Some(32000), Some(60000), Some(60000)]
    );
    assert_eq!(session.phase(), Phase::Connecting);
    session.on_transport_opened();
    assert_eq!(session.phase(), Phase::AwaitingHandshake);
    session.on_transport_closed();
    assert_eq!(session.phase(), Phase::Reconnecting);
    assert_eq!(session.on_transport_failed().retry_after, Some(1000));
}

#[test]
fn the_handshake_brings_the_identification() {
    let mut session = session_with_quota(120);
    session.connect();
    session.on_transport_opened();
    let reaction =
        session.on_payload(GatewayPayload::Hello(HelloPayload { heartbeat_interval: 5000 }), 1000, 0);
    assert_eq!(session.phase(), Phase::Identifying);
    assert_eq!(session.state().heartbeat_interval, 5000);
    assert_eq!(reaction.heartbeat, Timer::Keep);
    let Some(GatewayPayload::Identify(identify)) = reaction.send else {
        panic!("expected an identification");
    };
    assert_eq!(identify.token, "secret");
    assert_eq!(identify.intents.bits(), GUILDS);
    assert_eq!(identify.properties.os, "linux");
    assert!(!identify.compress);
    assert_eq!(identify.shard, None);
    assert_eq!(identify.large_threshold, None);
}

#[test]
fn anything_but_the_handshake_first_breaks_the_protocol() {
    let mut session = session_with_quota(120);
    session.connect();
    session.on_transport_opened();
    let reaction = session.on_payload(GatewayPayload::HeartBeatACK, 1000, 0);
    assert_eq!(session.phase(), Phase::Connecting);
    assert!(matches!(reaction.transport, Transport::Reopen { .. }));
    assert!(matches!(reaction.error, Some(GatewayError::ProtocolViolation)));
    assert!(reaction.send.is_none());

    session.on_transport_opened();
    let reaction =
        session.on_payload(GatewayPayload::Hello(HelloPayload { heartbeat_interval: 0 }), 1000, 0);
    assert_eq!(session.phase(), Phase::Connecting);
    assert!(matches!(reaction.error, Some(GatewayError::ProtocolViolation)));
}

#[test]
fn ready_confirms_the_session_and_starts_the_heartbeat() {
    let mut session = session_with_quota(120);
    session.connect();
    session.on_transport_opened();
    session.on_payload(GatewayPayload::Hello(HelloPayload { heartbeat_interval: 5000 }), 1000, 0);
    let reaction = session.on_payload(dispatch(ready("abc"), 1), 1100, 250);
    assert_eq!(session.phase(), Phase::Connected);
    assert_eq!(session.state().session_id.as_deref(), Some("abc"));
    assert_eq!(session.state().resume_url.as_deref(), Some("wss://resume.example/"));
    assert_eq!(session.state().last_sequence, Some(1));
    assert!(session.state().heartbeat_acked);
    assert_eq!(reaction.heartbeat, Timer::Start { first_delay: 4749, interval: 5000 });
    assert_eq!(session.next_beat(), 1100 + 4749);
    assert!(matches!(reaction.deliver, Some(GatewayEvent::Ready(_))));
}

#[test]
fn first_probe_is_early_and_the_second_a_whole_interval_later() {
    let mut session = connected(120);
    let first = session.next_beat();
    assert_eq!(first, 1100 + 4999);
    assert!(first - 1100 < 5000);
    assert!(is_quiet(&session.on_tick(first - 1)));
    let reaction = session.on_tick(first);
    assert!(matches!(reaction.send, Some(GatewayPayload::Heartbeat)));
    assert!(!session.state().heartbeat_acked);
    assert_eq!(session.next_beat(), first + 5000);
    session.on_payload(GatewayPayload::HeartBeatACK, first + 40, 0);
    assert!(session.state().heartbeat_acked);
    assert!(is_quiet(&session.on_tick(first + 4999)));
    let reaction = session.on_tick(first + 5000);
    assert!(matches!(reaction.send, Some(GatewayPayload::Heartbeat)));
    assert_eq!(session.next_beat(), first + 10000);
}

#[test]
fn a_missed_ack_reconnects_without_waiting_for_the_transport() {
    let mut session = connected(120);
    let first = session.next_beat();
    session.on_tick(first);
    let reaction = session.on_tick(first + 5000);
    assert_eq!(session.phase(), Phase::Reconnecting);
    assert!(reaction.send.is_none());
    assert!(reaction.error.is_none());
    assert_eq!(reaction.heartbeat, Timer::Stop);
    assert!(matches!(&reaction.transport, Transport::Reopen { url } if url == "wss://resume.example/"));
    assert_eq!(session.state().session_id.as_deref(), Some("abc"));
    assert_eq!(session.state().last_sequence, Some(42));
}

#[test]
fn a_resume_carries_the_session_and_the_last_sequence() {
    let mut session = connected(120);
    let reaction = session.on_transport_closed();
    assert_eq!(session.phase(), Phase::Reconnecting);
    assert_eq!(reaction.heartbeat, Timer::Stop);
    assert!(matches!(&reaction.transport, Transport::Open { url } if url == "wss://resume.example/"));
    session.on_transport_opened();
    assert_eq!(session.phase(), Phase::AwaitingHandshake);
    let reaction =
        session.on_payload(GatewayPayload::Hello(HelloPayload { heartbeat_interval: 5000 }), 9000, 0);
    assert_eq!(session.phase(), Phase::Resuming);
    let Some(GatewayPayload::Resume(resume)) = reaction.send else {
        panic!("expected a resume request");
    };
    assert_eq!(resume.session_id, "abc");
    assert_eq!(resume.seq, 42);
    assert_eq!(resume.token, "secret");

    let reaction = session.on_payload(dispatch(unknown("RESUMED"), 43), 9100, 0);
    assert_eq!(session.phase(), Phase::Connected);
    assert_eq!(session.state().last_sequence, Some(43));
    assert!(session.state().last_sequence >= Some(42));
    assert!(matches!(reaction.heartbeat, Timer::Start { interval: 5000, .. }));
    assert!(matches!(reaction.deliver, Some(GatewayEvent::Unknown { .. })));
}

#[test]
fn the_sequence_never_goes_down() {
    let mut session = connected(120);
    session.on_payload(dispatch(unknown("A"), 50), 1200, 0);
    assert_eq!(session.state().last_sequence, Some(50));
    let reaction = session.on_payload(dispatch(unknown("B"), 45), 1300, 0);
    assert_eq!(session.state().last_sequence, Some(50));
    assert!(matches!(reaction.deliver, Some(GatewayEvent::Unknown { .. })));
    session.on_payload(dispatch(unknown("C"), 51), 1400, 0);
    assert_eq!(session.state().last_sequence, Some(51));
}

#[test]
fn an_unknown_event_reaches_the_caller_and_the_session_stays_up() {
    let mut session = connected(120);
    let text = r#"{"op":0,"t":"BRAND_NEW_EVENT","s":43,"d":{"x":[1,2]}}"#;
    let reaction = session.on_message(text, 1200, 0);
    assert_eq!(session.phase(), Phase::Connected);
    assert!(reaction.error.is_none());
    assert!(matches!(reaction.transport, Transport::Keep));
    let Some(GatewayEvent::Unknown { name, data }) = reaction.deliver else {
        panic!("expected an unknown event");
    };
    assert_eq!(name, "BRAND_NEW_EVENT");
    assert!(matches!(data.get("x"), Some(JsonValue::Array(items)) if items.len() == 2));
    assert_eq!(session.state().last_sequence, Some(43));
}

#[test]
fn a_command_beyond_the_quota_is_refused_and_not_written() {
    // Identify took one of the two sends of the hour.
    let mut session = connected(2);
    assert!(matches!(
        session.send_command(GatewayPayload::PresenceUpdate, 2000),
        Ok(GatewayPayload::PresenceUpdate)
    ));
    assert!(matches!(
        session.send_command(GatewayPayload::PresenceUpdate, 2001),
        Err(GatewayError::Ratelimit { retry_after: 3_598_999 })
    ));
    assert!(matches!(
        session.write_payload(GatewayPayload::VoiceStateUpdate, 2002),
        Err(GatewayError::Ratelimit { retry_after: 3_598_998 })
    ));
    assert_eq!(session.phase(), Phase::Connected);
    assert_eq!(
        session.write_payload(GatewayPayload::VoiceStateUpdate, 3_601_000).ok().as_deref(),
        Some(r#"{"op":4}"#)
    );
}

#[test]
fn a_probe_beyond_the_quota_is_held_back() {
    let mut session = connected(1);
    let first = session.next_beat();
    let reaction = session.on_tick(first);
    assert!(reaction.send.is_none());
    assert_eq!(reaction.retry_after, Some(3_600_000 - (first - 1000)));
    assert!(session.state().heartbeat_acked);
    assert_eq!(session.next_beat(), first);
    assert_eq!(session.phase(), Phase::Connected);
}

#[test]
fn an_identification_beyond_the_quota_waits() {
    let mut session = connected(1);
    session.on_transport_closed();
    session.on_transport_opened();
    let reaction =
        session.on_payload(GatewayPayload::Hello(HelloPayload { heartbeat_interval: 5000 }), 2000, 0);
    assert_eq!(session.phase(), Phase::Resuming);
    assert!(reaction.send.is_none());
    assert_eq!(reaction.retry_after, Some(3_599_000));
    let reaction = session.retry_identify(3_601_000);
    assert!(matches!(reaction.send, Some(GatewayPayload::Resume(_))));
}

#[test]
fn commands_need_a_connected_session() {
    let mut session = session_with_quota(120);
    assert!(matches!(
        session.send_command(GatewayPayload::PresenceUpdate, 0),
        Err(GatewayError::NotConnected)
    ));
    session.connect();
    session.on_transport_opened();
    assert!(matches!(
        session.write_payload(GatewayPayload::PresenceUpdate, 0),
        Err(GatewayError::NotConnected)
    ));
}

#[test]
fn the_server_can_ask_for_a_reconnect() {
    let mut session = connected(120);
    let reaction = session.on_payload(GatewayPayload::Reconnect, 1200, 0);
    assert_eq!(session.phase(), Phase::Reconnecting);
    assert!(matches!(reaction.transport, Transport::Reopen { .. }));
    assert_eq!(reaction.heartbeat, Timer::Stop);
    assert!(reaction.error.is_none());
    assert_eq!(session.state().session_id.as_deref(), Some("abc"));
}

#[test]
fn a_resumable_invalid_session_keeps_what_a_resume_needs() {
    let mut session = connected(120);
    session.on_payload(GatewayPayload::InvalidSession(true), 1200, 0);
    assert_eq!(session.phase(), Phase::Reconnecting);
    assert_eq!(session.state().session_id.as_deref(), Some("abc"));
    assert_eq!(session.state().last_sequence, Some(42));
    assert_eq!(session.url(), "wss://resume.example/");
}

#[test]
fn an_invalid_session_beyond_resuming_starts_afresh() {
    let mut session = connected(120);
    let reaction = session.on_payload(GatewayPayload::InvalidSession(false), 1200, 0);
    assert_eq!(session.phase(), Phase::Reconnecting);
    assert_eq!(session.state().session_id, None);
    assert_eq!(session.state().resume_url, None);
    assert_eq!(session.state().last_sequence, None);
    assert!(matches!(&reaction.transport, Transport::Reopen { url } if url == GATEWAY_URL));
    session.on_transport_opened();
    let reaction =
        session.on_payload(GatewayPayload::Hello(HelloPayload { heartbeat_interval: 100 }), 1300, 0);
    assert_eq!(session.phase(), Phase::Identifying);
    assert!(matches!(reaction.send, Some(GatewayPayload::Identify(_))));
}

#[test]
fn a_refused_resume_falls_through_to_a_fresh_identification() {
    let mut session = connected(120);
    session.on_transport_closed();
    session.on_transport_opened();
    session.on_payload(GatewayPayload::Hello(HelloPayload { heartbeat_interval: 5000 }), 2000, 0);
    assert_eq!(session.phase(), Phase::Resuming);
    let reaction = session.on_payload(GatewayPayload::InvalidSession(false), 2100, 0);
    assert_eq!(session.phase(), Phase::Identifying);
    assert!(matches!(reaction.transport, Transport::Keep));
    assert!(matches!(reaction.send, Some(GatewayPayload::Identify(_))));
    assert_eq!(session.state().session_id, None);
    assert_eq!(session.state().last_sequence, None);
}

#[test]
fn the_server_can_ask_for_a_probe() {
    let mut session = connected(120);
    let reaction = session.on_payload(GatewayPayload::Heartbeat, 1200, 0);
    assert!(matches!(reaction.send, Some(GatewayPayload::Heartbeat)));
    assert_eq!(session.phase(), Phase::Connected);
}

#[test]
fn a_message_that_cannot_be_read_forces_a_reconnect() {
    let mut session = connected(120);
    let reaction = session.on_message("{not json", 1200, 0);
    assert_eq!(session.phase(), Phase::Reconnecting);
    assert!(matches!(reaction.error, Some(GatewayError::Json(DecodeError::Syntax))));
    assert!(matches!(reaction.transport, Transport::Reopen { .. }));

    let mut session = connected(120);
    let reaction = session.on_message(r#"{"op":77}"#, 1200, 0);
    assert_eq!(session.phase(), Phase::Reconnecting);
    assert!(matches!(reaction.error, Some(GatewayError::Json(DecodeError::UnknownOpcode(77)))));
    assert_eq!(session.state().session_id.as_deref(), Some("abc"));
}

#[test]
fn an_opcode_out_of_place_breaks_the_protocol() {
    let mut session = connected(120);
    let reaction =
        session.on_payload(GatewayPayload::Hello(HelloPayload { heartbeat_interval: 1 }), 1200, 0);
    assert_eq!(session.phase(), Phase::Reconnecting);
    assert!(matches!(reaction.error, Some(GatewayError::ProtocolViolation)));
}

#[test]
fn closing_ends_the_session_for_good() {
    let mut session = connected(120);
    let reaction = session.close();
    assert_eq!(session.phase(), Phase::Closed);
    assert!(matches!(reaction.transport, Transport::Close));
    assert_eq!(reaction.heartbeat, Timer::Stop);
    assert!(reaction.error.is_none());
    assert!(is_quiet(&session.close()));
    assert!(is_quiet(&session.connect()));
    assert!(is_quiet(&session.on_transport_opened()));
    assert!(is_quiet(&session.on_transport_closed()));
    assert!(is_quiet(&session.on_transport_failed()));
    assert!(is_quiet(&session.on_tick(u64::MAX)));
    assert!(is_quiet(&session.on_payload(GatewayPayload::Reconnect, 5000, 0)));
    assert!(is_quiet(&session.on_message("{", 5000, 0)));
    assert_eq!(session.phase(), Phase::Closed);
}

#[test]
fn a_refusal_for_good_ends_the_session_with_an_error() {
    let mut session = connected(120);
    let reaction = session.on_unrecoverable();
    assert_eq!(session.phase(), Phase::Closed);
    assert!(matches!(reaction.error, Some(GatewayError::Unrecoverable)));
    assert!(matches!(reaction.transport, Transport::Close));
}

#[test]
fn errors_say_what_went_wrong() {
    assert_eq!(GatewayError::Ratelimit { retry_after: 5 }.message(), "Websocket ratelimit hit");
    assert_eq!(
        GatewayError::Json(DecodeError::MissingField("op")).message(),
        "missing field `op`"
    );
    assert_eq!(DecodeError::UnknownOpcode(5).message(), "not a valid opcode");
}

#[test]
fn some_close_codes_end_the_session_for_good() {
    for code in [4004u16, 4010, 4011, 4012, 4013, 4014] {
        assert!(closes_for_good(code), "{code}");
    }
    for code in [1000u16, 1001, 4000, 4003, 4005, 4009, 4015, 0, u16::MAX] {
        assert!(!closes_for_good(code), "{code}");
    }
}

#[test]
fn retry_asks_again_for_what_was_held_back() {
    let mut session = connected(1);
    let first = session.next_beat();
    assert!(session.on_tick(first).send.is_none());
    let reaction = session.retry(3_601_000);
    assert!(matches!(reaction.send, Some(GatewayPayload::Heartbeat)));
    assert!(!session.state().heartbeat_acked);

    let mut session = session_with_quota(120);
    assert!(is_quiet(&session.retry(5)));
    assert!(is_quiet(&session.retry_identify(5)));
    assert_eq!(session.phase(), Phase::Disconnected);
}

#[test]
fn a_refused_fresh_identification_ends_the_session() {
    let mut session = session_with_quota(120);
    session.connect();
    session.on_transport_opened();
    session.on_payload(GatewayPayload::Hello(HelloPayload { heartbeat_interval: 5000 }), 1000, 0);
    assert_eq!(session.phase(), Phase::Identifying);
    let reaction = session.on_payload(GatewayPayload::InvalidSession(false), 1100, 0);
    assert_eq!(session.phase(), Phase::Closed);
    assert!(matches!(reaction.error, Some(GatewayError::Unrecoverable)));
    assert!(matches!(reaction.transport, Transport::Close));
    assert!(reaction.send.is_none());
}

#[test]
fn a_command_that_cannot_be_written_is_an_encode_error() {
    let mut session = connected(120);
    let odd = GatewayPayload::Dispatch(DispatchPayload {
        data: GatewayEvent::Unknown {
            name: String::from("X"),
            data: JsonValue::Number(String::from("1..2")),
        },
        sequence: 1,
    });
    assert!(matches!(session.write_payload(odd, 2000), Err(GatewayError::Encode)));
    assert_eq!(GatewayError::Encode.message(), "Envelope cannot be written as JSON text");
}
