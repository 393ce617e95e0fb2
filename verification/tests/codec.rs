use dichonoia::error::DecodeError;
use dichonoia::gateway::envelope::{decode, encode, DispatchPayload, GatewayPayload};
use dichonoia::gateway::events::GatewayEvent;
use dichonoia::gateway::intents::{GatewayIntents, GUILDS, GUILD_MESSAGES};
use dichonoia::gateway::payload::{
    HelloPayload, IdentifyPayload, IdentifyProperties, ResumePayload,
};
use dichonoia::http::read_response;
use dichonoia::json::{JsonField, JsonValue};
use dichonoia::ratelimit::bucket::RateLimiter;
use dichonoia::ratelimit::headers::{Header, RateLimitHeaders};

fn identify() -> IdentifyPayload {
    IdentifyPayload {
        token: String::from("secret"),
        properties: IdentifyProperties {
            os: String::from("linux"),
            browser: String::from("dichonoia/0.1.0"),
            device: String::from("dichonoia/0.1.0"),
        },
        compress: false,
        large_threshold: Some(250),
        shard: Some([1, 3]),
        intents: GatewayIntents::from_bits(GUILDS | GUILD_MESSAGES).unwrap(),
    }
}

fn field(name: &str, value: JsonValue) -> JsonField {
    JsonField { name: String::from(name), value }
}

#[test]
fn hello_is_decoded_from_text() {
    let payload = decode(r#"{"op":10,"d":{"heartbeat_interval":41250},"s":null,"t":null}"#).unwrap();
    match payload {
        GatewayPayload::Hello(hello) => assert_eq!(hello.heartbeat_interval, 41250),
        other => panic!("expected a handshake, got {other:?}"),
    }
}

#[test]
fn text_that_is_not_json_is_a_syntax_error() {
    assert!(matches!(decode("{\"op\":"), Err(DecodeError::Syntax)));
    assert!(matches!(decode(""), Err(DecodeError::Syntax)));
}

#[test]
fn missing_opcode_is_a_missing_field() {
    assert!(matches!(decode(r#"{"d":{}}"#), Err(DecodeError::MissingField("op"))));
    assert!(matches!(decode("[]"), Err(DecodeError::MissingField("op"))));
}

#[test]
fn opcode_of_the_wrong_kind_is_an_invalid_field() {
    assert!(matches!(decode(r#"{"op":"10"}"#), Err(DecodeError::InvalidField("op"))));
    assert!(matches!(decode(r#"{"op":1.5}"#), Err(DecodeError::InvalidField("op"))));
    assert!(matches!(decode(r#"{"op":4294967296}"#), Err(DecodeError::InvalidField("op"))));
}

#[test]
fn undefined_opcode_is_an_unknown_opcode() {
    assert!(matches!(decode(r#"{"op":5}"#), Err(DecodeError::UnknownOpcode(5))));
    assert!(matches!(decode(r#"{"op":12}"#), Err(DecodeError::UnknownOpcode(12))));
    assert!(matches!(decode(r#"{"op":-3}"#), Err(DecodeError::UnknownOpcode(-3))));
}

#[test]
fn hello_without_interval_is_rejected() {
    assert!(matches!(decode(r#"{"op":10}"#), Err(DecodeError::MissingField("d"))));
    assert!(matches!(
        decode(r#"{"op":10,"d":{}}"#),
        Err(DecodeError::MissingField("heartbeat_interval"))
    ));
    assert!(matches!(
        decode(r#"{"op":10,"d":{"heartbeat_interval":"soon"}}"#),
        Err(DecodeError::InvalidField("heartbeat_interval"))
    ));
}

#[test]
fn envelopes_without_data_are_decoded() {
    assert!(matches!(decode(r#"{"op":7}"#), Ok(GatewayPayload::Reconnect)));
    assert!(matches!(decode(r#"{"op":11}"#), Ok(GatewayPayload::HeartBeatACK)));
    assert!(matches!(decode(r#"{"op":3}"#), Ok(GatewayPayload::PresenceUpdate)));
    assert!(matches!(decode(r#"{"op":4}"#), Ok(GatewayPayload::VoiceStateUpdate)));
    assert!(matches!(decode(r#"{"op":8}"#), Ok(GatewayPayload::RequestGuildMembers)));
    assert!(matches!(decode(r#"{"op":31}"#), Ok(GatewayPayload::RequestSoundboardSounds)));
}

#[test]
fn heartbeat_is_the_opcode_alone() {
    assert_eq!(encode(GatewayPayload::Heartbeat).as_deref(), Some(r#"{"op":1}"#));
    let JsonValue::Object(fields) = GatewayPayload::Heartbeat.to_json() else {
        panic!("expected an object");
    };
    assert_eq!(fields.len(), 1);
    assert_eq!(fields[0].name, "op");
    assert!(matches!(fields[0].value, JsonValue::Int(1)));
    assert!(matches!(decode(r#"{"op":1}"#), Ok(GatewayPayload::Heartbeat)));
    assert!(matches!(decode(r#"{"op":1,"d":17}"#), Ok(GatewayPayload::Heartbeat)));
    assert!(matches!(decode(r#"{"op":1,"d":null}"#), Ok(GatewayPayload::Heartbeat)));
    assert!(matches!(decode(r#"{"op":1,"d":"x"}"#), Ok(GatewayPayload::Heartbeat)));
}

#[test]
fn only_envelopes_that_carry_something_have_data() {
    let without = vec![
        GatewayPayload::Heartbeat,
        GatewayPayload::PresenceUpdate,
        GatewayPayload::VoiceStateUpdate,
        GatewayPayload::Reconnect,
        GatewayPayload::RequestGuildMembers,
        GatewayPayload::HeartBeatACK,
        GatewayPayload::RequestSoundboardSounds,
    ];
    for payload in without {
        let op = payload.op();
        let doc = payload.to_json();
        assert!(doc.get("d").is_none(), "opcode {op}");
        assert!(matches!(doc.get("op"), Some(JsonValue::Int(n)) if *n == i64::from(op)));
        assert!(matches!(&doc, JsonValue::Object(fields) if fields.len() == 1));
    }
    let with = vec![
        GatewayPayload::Identify(identify()),
        GatewayPayload::Hello(HelloPayload { heartbeat_interval: 5000 }),
        GatewayPayload::InvalidSession(true),
        GatewayPayload::Resume(ResumePayload {
            token: String::from("t"),
            session_id: String::from("s"),
            seq: 1,
        }),
    ];
    for payload in with {
        let op = payload.op();
        let doc = payload.to_json();
        assert!(doc.get("d").is_some(), "opcode {op}");
        assert!(matches!(&doc, JsonValue::Object(fields) if fields.len() == 2));
    }
    let hello = GatewayPayload::Hello(HelloPayload { heartbeat_interval: 5000 }).to_json();
    assert!(matches!(
        hello.get("d").and_then(|d| d.get("heartbeat_interval")),
        Some(JsonValue::Int(5000))
    ));
}

#[test]
fn invalid_session_is_resumable_only_where_it_says_so() {
    assert!(matches!(decode(r#"{"op":9,"d":true}"#), Ok(GatewayPayload::InvalidSession(true))));
    assert!(matches!(decode(r#"{"op":9,"d":false}"#), Ok(GatewayPayload::InvalidSession(false))));
    assert!(matches!(decode(r#"{"op":9}"#), Ok(GatewayPayload::InvalidSession(false))));
    assert!(matches!(decode(r#"{"op":9,"d":1}"#), Ok(GatewayPayload::InvalidSession(false))));
}

#[test]
fn unknown_event_keeps_name_and_body() {
    let payload = decode(r#"{"op":0,"t":"TYPING_START","s":7,"d":{"channel_id":"5","n":1.5}}"#)
        .unwrap();
    let GatewayPayload::Dispatch(dispatch) = payload else {
        panic!("expected a dispatch");
    };
    assert_eq!(dispatch.sequence, 7);
    let GatewayEvent::Unknown { name, data } = dispatch.data else {
        panic!("expected an unknown event");
    };
    assert_eq!(name, "TYPING_START");
    assert!(matches!(data.get("channel_id"), Some(JsonValue::Str(s)) if s == "5"));
    assert!(matches!(data.get("n"), Some(JsonValue::Number(n)) if n == "1.5"));
}

#[test]
fn known_event_with_a_bad_body_is_unknown() {
    let payload = decode(r#"{"op":0,"t":"READY","s":1,"d":{"v":10}}"#).unwrap();
    let GatewayPayload::Dispatch(dispatch) = payload else {
        panic!("expected a dispatch");
    };
    assert!(dispatch.data.is_unknown());
    assert_eq!(dispatch.data.name(), "READY");
}

#[test]
fn dispatch_needs_name_body_and_sequence() {
    assert!(matches!(decode(r#"{"op":0,"d":{},"s":1}"#), Err(DecodeError::MissingField("t"))));
    assert!(matches!(decode(r#"{"op":0,"t":"X","s":1}"#), Err(DecodeError::MissingField("d"))));
    assert!(matches!(decode(r#"{"op":0,"t":"X","d":{}}"#), Err(DecodeError::MissingField("s"))));
    assert!(matches!(
        decode(r#"{"op":0,"t":"X","d":{},"s":"1"}"#),
        Err(DecodeError::InvalidField("s"))
    ));
}

#[test]
fn identify_is_written_with_its_members_in_order() {
    let doc = GatewayPayload::Identify(identify()).to_json();
    let JsonValue::Object(fields) = doc else {
        panic!("expected an object");
    };
    assert_eq!(fields.len(), 2);
    assert_eq!(fields[0].name, "d");
    assert_eq!(fields[1].name, "op");
    assert!(matches!(fields[1].value, JsonValue::Int(2)));
    let JsonValue::Object(inner) = &fields[0].value else {
        panic!("expected an object under d");
    };
    let names: Vec<&str> = inner.iter().map(|f| f.name.as_str()).collect();
    assert_eq!(
        names,
        vec!["compress", "intents", "large_threshold", "properties", "shard", "token"]
    );
    assert!(matches!(inner[1].value, JsonValue::Int(513)));
    let JsonValue::Object(properties) = &inner[3].value else {
        panic!("expected an object under properties");
    };
    let names: Vec<&str> = properties.iter().map(|f| f.name.as_str()).collect();
    assert_eq!(names, vec!["browser", "device", "os"]);
}

#[test]
fn identify_leaves_out_what_is_unset() {
    let mut payload = identify();
    payload.large_threshold = None;
    payload.shard = None;
    let text = encode(GatewayPayload::Identify(payload)).unwrap();
    assert_eq!(
        text,
        concat_identify()
    );
}

fn concat_identify() -> String {
    let mut text = String::new();
    text.push_str(r#"{"d":{"compress":false,"intents":513,"#);
    text.push_str(r#""properties":{"browser":"dichonoia/0.1.0","device":"dichonoia/0.1.0","os":"linux"},"#);
    text.push_str(r#""token":"secret"},"op":2}"#);
    text
}

#[test]
fn identify_survives_the_round_trip() {
    let text = encode(GatewayPayload::Identify(identify())).unwrap();
    let GatewayPayload::Identify(back) = decode(&text).unwrap() else {
        panic!("expected an identification");
    };
    assert_eq!(back.token, "secret");
    assert_eq!(back.properties.os, "linux");
    assert_eq!(back.properties.browser, "dichonoia/0.1.0");
    assert_eq!(back.properties.device, "dichonoia/0.1.0");
    assert!(!back.compress);
    assert_eq!(back.large_threshold, Some(250));
    assert_eq!(back.shard, Some([1, 3]));
    assert_eq!(back.intents.bits(), GUILDS | GUILD_MESSAGES);
}

#[test]
fn identify_with_an_unnamed_intent_is_rejected() {
    let text = r#"{"op":2,"d":{"token":"t","properties":{"os":"a","browser":"b","device":"c"},"intents":262144}}"#;
    assert!(matches!(decode(text), Err(DecodeError::InvalidField("intents"))));
}

#[test]
fn identify_without_compress_reads_it_as_false() {
    let text = r#"{"op":2,"d":{"token":"t","properties":{"os":"a","browser":"b","device":"c"},"intents":1}}"#;
    let GatewayPayload::Identify(back) = decode(text).unwrap() else {
        panic!("expected an identification");
    };
    assert!(!back.compress);
    assert_eq!(back.large_threshold, None);
    assert_eq!(back.shard, None);
}

#[test]
fn resume_survives_the_round_trip() {
    let payload = GatewayPayload::Resume(ResumePayload {
        token: String::from("secret"),
        session_id: String::from("abc"),
        seq: 42,
    });
    let text = encode(payload).unwrap();
    assert_eq!(text, r#"{"d":{"seq":42,"session_id":"abc","token":"secret"},"op":6}"#);
    let GatewayPayload::Resume(back) = decode(&text).unwrap() else {
        panic!("expected a resume request");
    };
    assert_eq!(back.token, "secret");
    assert_eq!(back.session_id, "abc");
    assert_eq!(back.seq, 42);
}

#[test]
fn every_plain_envelope_survives_the_round_trip() {
    let cases = vec![
        GatewayPayload::Heartbeat,
        GatewayPayload::PresenceUpdate,
        GatewayPayload::VoiceStateUpdate,
        GatewayPayload::Reconnect,
        GatewayPayload::RequestGuildMembers,
        GatewayPayload::InvalidSession(true),
        GatewayPayload::InvalidSession(false),
        GatewayPayload::Hello(HelloPayload { heartbeat_interval: 5000 }),
        GatewayPayload::HeartBeatACK,
        GatewayPayload::RequestSoundboardSounds,
    ];
    for payload in cases {
        let op = payload.op();
        let shown = format!("{payload:?}");
        let text = encode(payload).unwrap();
        let back = decode(&text).unwrap();
        assert_eq!(back.op(), op);
        assert_eq!(format!("{back:?}"), shown);
    }
}

#[test]
fn opcode_numbers_are_the_protocols() {
    assert_eq!(GatewayPayload::Heartbeat.op(), 1);
    assert_eq!(GatewayPayload::Identify(identify()).op(), 2);
    assert_eq!(GatewayPayload::PresenceUpdate.op(), 3);
    assert_eq!(GatewayPayload::VoiceStateUpdate.op(), 4);
    assert_eq!(GatewayPayload::Reconnect.op(), 7);
    assert_eq!(GatewayPayload::RequestGuildMembers.op(), 8);
    assert_eq!(GatewayPayload::InvalidSession(false).op(), 9);
    assert_eq!(GatewayPayload::Hello(HelloPayload { heartbeat_interval: 1 }).op(), 10);
    assert_eq!(GatewayPayload::HeartBeatACK.op(), 11);
    assert_eq!(GatewayPayload::RequestSoundboardSounds.op(), 31);
}

#[test]
fn unknown_event_survives_the_round_trip() {
    let body = JsonValue::Object(vec![
        field("flag", JsonValue::Bool(true)),
        field("items", JsonValue::Array(vec![JsonValue::Int(1), JsonValue::Null])),
        field("ratio", JsonValue::Number(String::from("0.25"))),
    ]);
    let payload = GatewayPayload::Dispatch(DispatchPayload {
        data: GatewayEvent::Unknown { name: String::from("SOMETHING_NEW"), data: body },
        sequence: 99,
    });
    let text = encode(payload).unwrap();
    assert_eq!(
        text,
        r#"{"d":{"flag":true,"items":[1,null],"ratio":0.25},"op":0,"s":99,"t":"SOMETHING_NEW"}"#
    );
    let GatewayPayload::Dispatch(back) = decode(&text).unwrap() else {
        panic!("expected a dispatch");
    };
    assert_eq!(back.sequence, 99);
    let GatewayEvent::Unknown { name, data } = back.data else {
        panic!("expected an unknown event");
    };
    assert_eq!(name, "SOMETHING_NEW");
    assert!(matches!(data.get("flag"), Some(JsonValue::Bool(true))));
    assert!(matches!(data.get("ratio"), Some(JsonValue::Number(n)) if n == "0.25"));
    let Some(JsonValue::Array(items)) = data.get("items") else {
        panic!("expected an array");
    };
    assert!(matches!(items[0], JsonValue::Int(1)));
    assert!(matches!(items[1], JsonValue::Null));
}

#[test]
fn a_number_that_is_no_number_cannot_be_written() {
    let payload = GatewayPayload::Dispatch(DispatchPayload {
        data: GatewayEvent::Unknown {
            name: String::from("X"),
            data: JsonValue::Number(String::from("twelve")),
        },
        sequence: 1,
    });
    assert_eq!(encode(payload), None);
}

#[test]
fn from_json_reads_a_document_built_by_hand() {
    let doc = JsonValue::Object(vec![
        field("op", JsonValue::Int(10)),
        field("d", JsonValue::Object(vec![field("heartbeat_interval", JsonValue::Int(5000))])),
    ]);
    assert!(matches!(
        GatewayPayload::from_json(doc),
        Ok(GatewayPayload::Hello(HelloPayload { heartbeat_interval: 5000 }))
    ));
}

#[test]
fn the_first_of_two_members_of_one_name_counts() {
    let doc = JsonValue::Object(vec![
        field("op", JsonValue::Int(7)),
        field("op", JsonValue::Int(11)),
    ]);
    assert!(matches!(GatewayPayload::from_json(doc), Ok(GatewayPayload::Reconnect)));
}

/// The document that `text` is read as.
fn read(text: &str) -> JsonValue {
    let headers = RateLimitHeaders {
        bucket: Header::Text(String::from("b")),
        limit: Header::Text(String::from("1")),
        remaining: Header::Text(String::from("1")),
        reset: Header::Text(String::from("1")),
    };
    read_response(&mut RateLimiter::new(), 200, &headers, text, 0).unwrap()
}

#[test]
fn a_written_envelope_is_read_back_member_for_member() {
    let cases = vec![
        GatewayPayload::Heartbeat,
        GatewayPayload::Identify(identify()),
        GatewayPayload::Resume(ResumePayload {
            token: String::from("secret"),
            session_id: String::from("abc"),
            seq: 42,
        }),
        GatewayPayload::InvalidSession(true),
        GatewayPayload::Hello(HelloPayload { heartbeat_interval: 5000 }),
        GatewayPayload::Dispatch(DispatchPayload {
            data: GatewayEvent::Unknown {
                name: String::from("NEW"),
                data: JsonValue::Object(vec![
                    field("a", JsonValue::Int(1)),
                    field("b", JsonValue::Array(vec![JsonValue::Null])),
                ]),
            },
            sequence: 7,
        }),
    ];
    for payload in cases {
        let written = payload.clone().to_json();
        let text = encode(payload).unwrap();
        assert_eq!(format!("{:?}", read(&text)), format!("{written:?}"));
    }
}

#[test]
fn a_dispatch_is_written_with_its_members_in_order() {
    let payload = GatewayPayload::Dispatch(DispatchPayload {
        data: GatewayEvent::Unknown { name: String::from("NEW"), data: JsonValue::Null },
        sequence: 7,
    });
    let JsonValue::Object(fields) = payload.to_json() else {
        panic!("expected an object");
    };
    let names: Vec<&str> = fields.iter().map(|f| f.name.as_str()).collect();
    assert_eq!(names, vec!["d", "op", "s", "t"]);
    assert!(matches!(fields[1].value, JsonValue::Int(0)));
    assert!(matches!(fields[2].value, JsonValue::Int(7)));
    assert!(matches!(&fields[3].value, JsonValue::Str(s) if s == "NEW"));
}
