use dichonoia::error::DecodeError;
use dichonoia::gateway::bot::{GatewayBot, SessionStartLimit};
use dichonoia::gateway::envelope::{decode, encode, DispatchPayload, GatewayPayload};
use dichonoia::gateway::events::guild_create::{
    GuildCreate, GuildCreateExtraData, GuildCreateSource,
};
use dichonoia::gateway::events::partial_application::{
    ApplicationFlags, PartialApplication, EMBEDDED, GATEWAY_PRESENCE,
};
use dichonoia::gateway::events::ready::Ready;
use dichonoia::gateway::events::shard_info::ShardInfo;
use dichonoia::gateway::events::GatewayEvent;
use dichonoia::guild::unavailable::{deserialize, serialize, UnavailableGuild};
use dichonoia::guild::Guild;
use dichonoia::id::marker::{Application, Guild as GuildMarker, User as UserMarker};
use dichonoia::id::{ApplicationId, GuildId, Snowflake, UserId};
use dichonoia::json::{JsonField, JsonValue};
use dichonoia::timestamp::Timestamp;
use dichonoia::user::discriminator::{read_discriminator, write_discriminator, Discriminator};
use dichonoia::user::User;

fn field(name: &str, value: JsonValue) -> JsonField {
    JsonField { name: String::from(name), value }
}

fn text(s: &str) -> JsonValue {
    JsonValue::Str(String::from(s))
}

fn user() -> User {
    User {
        id: UserId::new_nonzero(80351110224678912),
        username: String::from("nelly"),
        discriminator: Some(Discriminator(42)),
        global_name: None,
        avatar: Some(String::from("8342729096ea3675442027381ff50dfe")),
        bot: Some(true),
        system: None,
    }
}

fn ready() -> Ready {
    Ready {
        version: 10,
        user: user(),
        guilds: vec![GuildId::new_nonzero(41771983423143937), GuildId::new_nonzero(7)],
        session_id: String::from("abc"),
        resume_gateway_url: String::from("wss://resume.example"),
        shard: Some(ShardInfo { id: 0, num: 2 }),
        application: PartialApplication::new(
            ApplicationId::new_nonzero(5),
            ApplicationFlags::from_bits(GATEWAY_PRESENCE | EMBEDDED).unwrap(),
        ),
    }
}

#[test]
fn snowflake_keeps_its_number() {
    let id: Snowflake<GuildMarker> = Snowflake::new_nonzero(175928847299117063);
    assert_eq!(id.get(), 175928847299117063);
    assert_eq!(id.get_nonzero(), 175928847299117063);
    let as_user: Snowflake<UserMarker> = id.cast_into();
    assert_eq!(as_user.get(), 175928847299117063);
    let as_app: Snowflake<Application> = Snowflake::cast_from(as_user);
    assert_eq!(as_app.get(), 175928847299117063);
    assert!(GuildId::new(0).is_none());
    assert_eq!(GuildId::new(9).unwrap().get(), 9);
}

#[test]
fn snowflake_is_written_as_a_string() {
    let id = GuildId::new_nonzero(175928847299117063);
    assert!(matches!(id.to_json(), JsonValue::Str(s) if s == "175928847299117063"));
    assert!(matches!(GuildId::new_nonzero(u64::MAX).to_json(), JsonValue::Str(s) if s == "18446744073709551615"));
}

#[test]
fn snowflake_is_read_from_a_string_of_digits() {
    assert_eq!(GuildId::from_json(&text("175928847299117063"), "id").unwrap().get(), 175928847299117063);
    assert_eq!(GuildId::from_json(&text("+12"), "id").unwrap().get(), 12);
    assert_eq!(GuildId::from_json(&text("007"), "id").unwrap().get(), 7);
    assert_eq!(GuildId::from_json(&text("18446744073709551615"), "id").unwrap().get(), u64::MAX);
    for bad in ["0", "", "+", "-5", "12a", "1 2", "18446744073709551616", "١٢", "1.0"] {
        assert!(
            matches!(GuildId::from_json(&text(bad), "id"), Err(DecodeError::InvalidField("id"))),
            "{bad}"
        );
    }
    assert!(matches!(
        GuildId::from_json(&JsonValue::Int(5), "id"),
        Err(DecodeError::InvalidField("id"))
    ));
}

#[test]
fn discriminator_is_written_with_four_digits() {
    assert_eq!(Discriminator(7).to_text(), "0007");
    assert_eq!(Discriminator(42).to_text(), "0042");
    assert_eq!(Discriminator(999).to_text(), "0999");
    assert_eq!(Discriminator(1000).to_text(), "1000");
    assert_eq!(Discriminator(9999).to_text(), "9999");
    assert_eq!(Discriminator(12345).to_text(), "12345");
    assert!(matches!(write_discriminator(&None), JsonValue::Str(s) if s == "0"));
    assert!(matches!(write_discriminator(&Some(Discriminator(5))), JsonValue::Str(s) if s == "0005"));
}

#[test]
fn discriminator_is_read_from_four_digits() {
    assert!(matches!(read_discriminator(&text("0"), "discriminator"), Ok(None)));
    assert!(matches!(
        read_discriminator(&text("0042"), "discriminator"),
        Ok(Some(Discriminator(42)))
    ));
    assert!(matches!(
        read_discriminator(&text("9999"), "discriminator"),
        Ok(Some(Discriminator(9999)))
    ));
    for bad in ["0000", "42", "00042", "+042", "12a4", "", "００４２"] {
        assert!(
            matches!(
                read_discriminator(&text(bad), "discriminator"),
                Err(DecodeError::InvalidField("discriminator"))
            ),
            "{bad}"
        );
    }
}

#[test]
fn every_discriminator_survives_the_round_trip() {
    for n in 1..=9999u16 {
        let doc = write_discriminator(&Some(Discriminator(n)));
        assert!(matches!(read_discriminator(&doc, "d"), Ok(Some(Discriminator(m))) if m == n));
    }
}

#[test]
fn user_survives_the_round_trip() {
    let doc = user().to_json();
    let JsonValue::Object(fields) = &doc else {
        panic!("expected an object");
    };
    let names: Vec<&str> = fields.iter().map(|f| f.name.as_str()).collect();
    assert_eq!(names, vec!["avatar", "bot", "discriminator", "global_name", "id", "username"]);
    assert!(matches!(doc.get("global_name"), Some(JsonValue::Null)));
    let back = User::from_json(&doc).unwrap();
    assert_eq!(back.id.get(), 80351110224678912);
    assert_eq!(back.username, "nelly");
    assert!(matches!(back.discriminator, Some(Discriminator(42))));
    assert_eq!(back.global_name, None);
    assert_eq!(back.avatar.as_deref(), Some("8342729096ea3675442027381ff50dfe"));
    assert_eq!(back.bot, Some(true));
    assert_eq!(back.system, None);
}

#[test]
fn user_without_a_name_is_rejected() {
    let doc = JsonValue::Object(vec![field("id", text("5")), field("discriminator", text("0"))]);
    assert!(matches!(User::from_json(&doc), Err(DecodeError::MissingField("username"))));
    let doc = JsonValue::Object(vec![field("username", text("x"))]);
    assert!(matches!(User::from_json(&doc), Err(DecodeError::MissingField("id"))));
}

#[test]
fn guild_list_is_written_as_unavailable_guilds() {
    let guilds = vec![GuildId::new_nonzero(1), GuildId::new_nonzero(22)];
    let doc = serialize(&guilds);
    let JsonValue::Array(items) = &doc else {
        panic!("expected an array");
    };
    assert_eq!(items.len(), 2);
    assert!(matches!(items[1].get("id"), Some(JsonValue::Str(s)) if s == "22"));
    assert!(matches!(items[1].get("unavailable"), Some(JsonValue::Bool(true))));
    let back = deserialize(&doc, "guilds").unwrap();
    assert_eq!(back.iter().map(|g| g.get()).collect::<Vec<u64>>(), vec![1, 22]);
    assert!(deserialize(&JsonValue::Array(vec![]), "guilds").unwrap().is_empty());
}

#[test]
fn guild_list_reports_the_first_bad_guild() {
    let good = UnavailableGuild::from(GuildId::new_nonzero(3)).to_json();
    let no_flag = Guild { id: GuildId::new_nonzero(4) }.to_json();
    let no_id = JsonValue::Object(vec![field("unavailable", JsonValue::Bool(true))]);
    let doc = JsonValue::Array(vec![good, no_flag, no_id]);
    assert!(matches!(deserialize(&doc, "guilds"), Err(DecodeError::MissingField("unavailable"))));
    assert!(matches!(
        deserialize(&JsonValue::Null, "guilds"),
        Err(DecodeError::InvalidField("guilds"))
    ));
}

#[test]
fn unavailable_guild_from_an_identifier_is_unavailable() {
    let guild = UnavailableGuild::from(GuildId::new_nonzero(3));
    assert_eq!(guild.id.get(), 3);
    assert!(guild.unavailable);
}

#[test]
fn shard_is_an_array_of_two() {
    let shard = ShardInfo { id: 1, num: 3 };
    let doc = shard.to_json();
    assert!(matches!(&doc, JsonValue::Array(items) if items.len() == 2));
    assert_eq!(ShardInfo::from_json(&doc, "shard").unwrap(), shard);
    let zero = JsonValue::Array(vec![JsonValue::Int(0), JsonValue::Int(0)]);
    assert!(matches!(ShardInfo::from_json(&zero, "shard"), Err(DecodeError::InvalidField("shard"))));
    let three = JsonValue::Array(vec![JsonValue::Int(0), JsonValue::Int(1), JsonValue::Int(2)]);
    assert!(ShardInfo::from_json(&three, "shard").is_err());
    let big = JsonValue::Array(vec![JsonValue::Int(65536), JsonValue::Int(1)]);
    assert!(ShardInfo::from_json(&big, "shard").is_err());
}

#[test]
fn application_flags_take_named_bits_only() {
    assert!(ApplicationFlags::from_bits(1).is_none());
    let flags = ApplicationFlags::from_bits(GATEWAY_PRESENCE | EMBEDDED).unwrap();
    assert_eq!(flags.bits(), (1 << 12) | (1 << 17));
    assert!(flags.contains(EMBEDDED));
    assert!(!flags.contains(1 << 23));
    let doc = JsonValue::Object(vec![field("id", text("5")), field("flags", JsonValue::Int(1))]);
    assert!(matches!(PartialApplication::from_json(&doc), Err(DecodeError::InvalidField("flags"))));
}

#[test]
fn ready_survives_the_round_trip_as_text() {
    let payload = GatewayPayload::Dispatch(DispatchPayload {
        data: GatewayEvent::Ready(ready()),
        sequence: 1,
    });
    let text = encode(payload).unwrap();
    let GatewayPayload::Dispatch(back) = decode(&text).unwrap() else {
        panic!("expected a dispatch");
    };
    assert_eq!(back.sequence, 1);
    let GatewayEvent::Ready(ready) = back.data else {
        panic!("expected a ready event");
    };
    assert_eq!(ready.version, 10);
    assert_eq!(ready.user.username, "nelly");
    assert_eq!(ready.guilds.iter().map(|g| g.get()).collect::<Vec<u64>>(), vec![41771983423143937, 7]);
    assert_eq!(ready.session_id, "abc");
    assert_eq!(ready.resume_gateway_url, "wss://resume.example");
    assert_eq!(ready.shard, Some(ShardInfo { id: 0, num: 2 }));
    assert_eq!(ready.application.id().get(), 5);
    assert_eq!(ready.application.flags().bits(), GATEWAY_PRESENCE | EMBEDDED);
}

#[test]
fn ready_is_read_from_what_the_server_sends() {
    let text = r#"{"t":"READY","s":1,"op":0,"d":{"v":10,
        "user":{"id":"80351110224678912","username":"nelly","discriminator":"1337",
                "global_name":null,"avatar":null,"bot":true,"verified":true},
        "guilds":[{"id":"41771983423143937","unavailable":true}],
        "session_id":"s3ss10n","resume_gateway_url":"wss://gateway-us-east1-b.discord.gg",
        "application":{"id":"80351110224678912","flags":4096},
        "extra":[1,2,3]}}"#;
    let GatewayPayload::Dispatch(dispatch) = decode(text).unwrap() else {
        panic!("expected a dispatch");
    };
    let GatewayEvent::Ready(ready) = dispatch.data else {
        panic!("expected a ready event");
    };
    assert!(matches!(ready.user.discriminator, Some(Discriminator(1337))));
    assert_eq!(ready.session_id, "s3ss10n");
    assert_eq!(ready.shard, None);
    assert_eq!(ready.guilds.len(), 1);
}

#[test]
fn timestamp_is_the_instant_its_text_names() {
    let t = Timestamp::parse("2024-01-01T00:00:00Z").unwrap();
    assert_eq!(t.unix_nanos(), 1_704_067_200_000_000_000);
    assert_eq!(t.as_str(), "2024-01-01T00:00:00Z");
    let t = Timestamp::parse("1970-01-01T01:00:00.5+01:00").unwrap();
    assert_eq!(t.unix_nanos(), 500_000_000);
    assert!(Timestamp::parse("yesterday").is_none());
    assert!(Timestamp::parse("2024-13-01T00:00:00Z").is_none());
    assert!(Timestamp::parse("").is_none());
}

#[test]
fn joined_guild_survives_the_round_trip() {
    let event = GuildCreate::Available {
        guild: Guild { id: GuildId::new_nonzero(9) },
        source: GuildCreateSource::Joined,
        extra_data: GuildCreateExtraData::new(Timestamp::parse("2021-05-04T03:02:01+00:00").unwrap()),
    };
    let doc = event.serialize();
    assert!(doc.get("unavailable").is_none());
    let back = GuildCreate::deserialize(&doc).unwrap();
    assert_eq!(back.guild_id().get(), 9);
    let GuildCreate::Available { source, extra_data, .. } = back else {
        panic!("expected an available guild");
    };
    assert_eq!(source, GuildCreateSource::Joined);
    assert_eq!(extra_data.joined_at().as_str(), "2021-05-04T03:02:01+00:00");
    assert_eq!(extra_data.joined_at().unix_nanos(), 1_620_097_321_000_000_000);
}

#[test]
fn guild_that_became_available_says_so() {
    let event = GuildCreate::Available {
        guild: Guild { id: GuildId::new_nonzero(9) },
        source: GuildCreateSource::BecameAvailable,
        extra_data: GuildCreateExtraData::new(Timestamp::parse("2021-05-04T03:02:01Z").unwrap()),
    };
    let doc = event.serialize();
    assert!(matches!(doc.get("unavailable"), Some(JsonValue::Bool(false))));
    assert!(matches!(
        GuildCreate::deserialize(&doc),
        Ok(GuildCreate::Available { source: GuildCreateSource::BecameAvailable, .. })
    ));
}

#[test]
fn unavailable_guild_create_keeps_the_identifier() {
    let doc = GuildCreate::Unavailable(GuildId::new_nonzero(77)).serialize();
    assert!(matches!(doc.get("unavailable"), Some(JsonValue::Bool(true))));
    let back = GuildCreate::deserialize(&doc).unwrap();
    assert!(matches!(back, GuildCreate::Unavailable(_)));
    assert_eq!(back.guild_id().get(), 77);
}

#[test]
fn available_guild_that_claims_to_be_unavailable_is_rejected() {
    let doc = JsonValue::Object(vec![
        field("unavailable", JsonValue::Bool(true)),
        field("id", text("9")),
        field("joined_at", text("2021-05-04T03:02:01Z")),
    ]);
    assert!(matches!(
        GuildCreate::deserialize(&doc),
        Err(DecodeError::InvalidField("unavailable"))
    ));
    let doc = JsonValue::Object(vec![field("id", text("9")), field("joined_at", text("soon"))]);
    assert!(matches!(
        GuildCreate::deserialize(&doc),
        Err(DecodeError::MissingField("unavailable"))
    ));
}

#[test]
fn guild_create_is_decoded_from_text() {
    let text = r#"{"op":0,"t":"GUILD_CREATE","s":3,"d":{"id":"12","joined_at":"2020-02-02T02:02:02Z","name":"x"}}"#;
    let GatewayPayload::Dispatch(dispatch) = decode(text).unwrap() else {
        panic!("expected a dispatch");
    };
    assert!(matches!(
        dispatch.data,
        GatewayEvent::GuildCreate(GuildCreate::Available { source: GuildCreateSource::Joined, .. })
    ));
}

#[test]
fn gateway_bot_is_read_from_json() {
    let doc = JsonValue::Object(vec![
        field("url", text("wss://gateway.discord.gg")),
        field("shards", JsonValue::Int(9)),
        field(
            "session_start_limit",
            JsonValue::Object(vec![
                field("total", JsonValue::Int(1000)),
                field("remaining", JsonValue::Int(999)),
                field("reset_after", JsonValue::Int(14400000)),
                field("max_concurrency", JsonValue::Int(1)),
            ]),
        ),
    ]);
    let bot = GatewayBot::from_json(&doc).unwrap();
    assert_eq!(bot.url, "wss://gateway.discord.gg");
    assert_eq!(bot.shards, 9);
    assert_eq!(
        bot.session_start_limit,
        SessionStartLimit { total: 1000, remaining: 999, reset_after: 14400000, max_concurrency: 1 }
    );
    let again = GatewayBot::from_json(&bot.to_json()).unwrap();
    assert_eq!(again.url, bot.url);
    assert_eq!(again.session_start_limit, bot.session_start_limit);
    assert!(matches!(
        GatewayBot::from_json(&JsonValue::Object(vec![field("url", text("x"))])),
        Err(DecodeError::MissingField("shards"))
    ));
}

#[test]
fn identifiers_are_equal_where_their_numbers_are() {
    assert_eq!(GuildId::new_nonzero(5), GuildId::new_nonzero(5));
    assert_ne!(GuildId::new_nonzero(5), GuildId::new_nonzero(6));
    assert!(UserId::new_nonzero(u64::MAX) == UserId::new(u64::MAX).unwrap());
}

#[test]
fn written_events_are_read_back_member_for_member() {
    let payload = GatewayPayload::Dispatch(DispatchPayload {
        data: GatewayEvent::Ready(ready()),
        sequence: 1,
    });
    let written = payload.clone().to_json();
    let JsonValue::Object(fields) = &written else {
        panic!("expected an object");
    };
    let JsonValue::Object(body) = &fields[0].value else {
        panic!("expected an object under d");
    };
    let names: Vec<&str> = body.iter().map(|f| f.name.as_str()).collect();
    assert_eq!(
        names,
        vec!["application", "guilds", "resume_gateway_url", "session_id", "shard", "user", "v"]
    );
    let text = encode(payload).unwrap();
    let GatewayPayload::Dispatch(back) = decode(&text).unwrap() else {
        panic!("expected a dispatch");
    };
    assert_eq!(format!("{:?}", GatewayPayload::Dispatch(back).to_json()), format!("{written:?}"));

    let event = GuildCreate::Available {
        guild: Guild { id: GuildId::new_nonzero(9) },
        source: GuildCreateSource::BecameAvailable,
        extra_data: GuildCreateExtraData::new(Timestamp::parse("2021-05-04T03:02:01Z").unwrap()),
    };
    let JsonValue::Object(fields) = event.serialize() else {
        panic!("expected an object");
    };
    let names: Vec<&str> = fields.iter().map(|f| f.name.as_str()).collect();
    assert_eq!(names, vec!["id", "joined_at", "unavailable"]);
}
