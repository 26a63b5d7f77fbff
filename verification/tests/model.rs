use ye_olde_discord::circular::CircularBuffer;
use ye_olde_discord::voice::gateway::intents::{Intent, DIRECT_MESSAGES, GUILDS};
use ye_olde_discord::voice::gateway::message::model::activity::{Activity, ActivityType};
use ye_olde_discord::voice::gateway::message::model::id::{
    parse_decimal_u64, u64_to_decimal, ChannelID, GuildID, MessageID, SequenceID, Snowflake,
    UserID,
};
use ye_olde_discord::voice::gateway::message::model::text::Emoji;
use ye_olde_discord::voice::gateway::message::model::user::{
    UserFlags, ALL_USER_FLAGS, DISCORD_EMPLOYEE, VERIFIED_BOT_DEVELOPER,
};

#[test]
fn snowflake_text_form_is_decimal() {
    assert_eq!(Snowflake::from(0u64).to_decimal(), "0");
    assert_eq!(Snowflake::from(9u64).to_decimal(), "9");
    assert_eq!(Snowflake::from(10u64).to_decimal(), "10");
    assert_eq!(
        Snowflake::from(175928847299117063u64).to_decimal(),
        "175928847299117063"
    );
    assert_eq!(Snowflake::from(u64::MAX).to_decimal(), "18446744073709551615");
}

#[test]
fn snowflake_reads_back_from_text() {
    for v in [0u64, 1, 42, 1000, 175928847299117063, u64::MAX] {
        let s = Snowflake::from(v).to_decimal();
        assert_eq!(u64::from(Snowflake::from_decimal_or_default(&s)), v);
    }
}

#[test]
fn snowflake_bad_text_reads_as_zero() {
    let zero = |s: &str| u64::from(Snowflake::from_decimal_or_default(s));
    assert_eq!(zero(""), 0);
    assert_eq!(zero("+"), 0);
    assert_eq!(zero("-1"), 0);
    assert_eq!(zero("12a"), 0);
    assert_eq!(zero(" 12"), 0);
    assert_eq!(zero("18446744073709551616"), 0);
    assert_eq!(zero("99999999999999999999999"), 0);
    assert_eq!(zero("☎"), 0);
}

#[test]
fn decimal_parse_matches_std() {
    for s in ["", "+", "-", "0", "+0", "007", "+42", "-42", "1_000", "184467440737095516150",
        "18446744073709551615", "18446744073709551616", "12 ", "٣"] {
        assert_eq!(parse_decimal_u64(s), s.parse::<u64>().ok(), "{:?}", s);
    }
    assert_eq!(u64_to_decimal(1234567890), "1234567890");
}

#[test]
fn ids_convert_both_ways() {
    let flake = Snowflake::from(77u64);
    assert_eq!(Snowflake::from(GuildID::from(flake)), flake);
    assert_eq!(Snowflake::from(ChannelID::from(flake)), flake);
    assert_eq!(Snowflake::from(UserID::from(flake)), flake);
    assert_eq!(Snowflake::from(MessageID::from(flake)), flake);
    assert_eq!(u64::from(SequenceID::from(5u64)), 5);
    assert!(SequenceID::from(3u64) < SequenceID::from(4u64));
}

#[test]
fn user_flags_drop_undefined_bits() {
    assert_eq!(ALL_USER_FLAGS, 0x3_57cf);
    assert_eq!(UserFlags::from_bits_truncate(u32::MAX).bits(), ALL_USER_FLAGS);
    assert_eq!(UserFlags::from_bits_truncate(1 << 4).bits(), 0);
    let both = DISCORD_EMPLOYEE | VERIFIED_BOT_DEVELOPER;
    assert_eq!(UserFlags::from_bits_truncate(both | (1 << 20)).bits(), both);
    let once = UserFlags::from_bits_truncate(0xdead_beef).bits();
    assert_eq!(UserFlags::from_bits_truncate(once).bits(), once);
}

#[test]
fn intent_bits() {
    assert_eq!(DIRECT_MESSAGES, 4096);
    assert_eq!(GUILDS, 1);
    assert_eq!(Intent::from_bits_truncate(DIRECT_MESSAGES).bits(), 4096);
    assert_eq!(Intent::from_bits_truncate(u16::MAX).bits(), 0x7fff);
}

#[test]
fn emoji_constructors() {
    let e = Emoji::named("☎️");
    assert_eq!(e.name, "☎️");
    assert_eq!(e.id, None);
    assert_eq!(e.animated, None);
    let c = Emoji::custom("party", Snowflake::from(9u64), true);
    assert_eq!(c.name, "party");
    assert_eq!(c.id, Some(Snowflake::from(9u64)));
    assert_eq!(c.animated, Some(true));
}

#[test]
fn activity_constructors() {
    let g = Activity::game("chess");
    assert_eq!(g.name, "chess");
    assert_eq!(g.activity_type, ActivityType::Game);
    assert!(g.created_at.is_some());
    assert!(g.url.is_none() && g.state.is_none() && g.emoji.is_none());

    let l = Activity::listening("radio");
    assert_eq!(l.activity_type, ActivityType::Listening);
    assert_eq!(l.name, "radio");

    let s = Activity::streaming("live", "https://twitch.tv/x");
    assert_eq!(s.activity_type, ActivityType::Streaming);
    assert_eq!(s.url.as_deref(), Some("https://twitch.tv/x"));

    let c = Activity::custom("busy", Emoji::named("x"));
    assert_eq!(c.activity_type, ActivityType::Custom);
    assert_eq!(c.name, "Custom Status");
    assert_eq!(c.state.as_deref(), Some("busy"));
    assert_eq!(c.emoji.unwrap().name, "x");
}

#[test]
fn activity_created_at_is_now() {
    let now = std::time::SystemTime::now()
        .duration_since(std::time::UNIX_EPOCH)
        .unwrap()
        .as_secs();
    let t = Activity::created_at().unwrap();
    assert!(t + 5 >= now && t <= now + 5);
}

#[test]
fn activity_type_codes() {
    assert_eq!(ActivityType::Game.code(), 0);
    assert_eq!(ActivityType::Streaming.code(), 1);
    assert_eq!(ActivityType::Listening.code(), 2);
    assert_eq!(ActivityType::Custom.code(), 4);
}

#[test]
fn circular_buffer_keeps_most_recent() {
    let mut b = CircularBuffer::new(3);
    assert_eq!(b.len(), 0);
    for i in 0..5u32 {
        b.push(i);
    }
    assert_eq!(b.len(), 3);
    assert_eq!(b.capacity(), 3);
    assert_eq!(*b.get_newest(0), 4);
    assert_eq!(*b.get_newest(1), 3);
    assert_eq!(*b.get_newest(2), 2);
    b.push(5);
    assert_eq!(*b.get_newest(0), 5);
    assert_eq!(*b.get_newest(2), 3);
}

#[test]
fn circular_buffer_not_full() {
    let mut b = CircularBuffer::new(4);
    b.push("a");
    b.push("b");
    assert_eq!(b.len(), 2);
    assert_eq!(*b.get_newest(0), "b");
    assert_eq!(*b.get_newest(1), "a");
}

#[test]
fn circular_buffer_of_no_capacity_keeps_nothing() {
    let mut b = CircularBuffer::new(0);
    b.push(1u8);
    assert_eq!(b.len(), 0);
}

#[test]
fn activities_carry_the_given_time() {
    let g = Activity::game_at("chess", Some(1_600_000_000));
    assert_eq!(g.created_at, Some(1_600_000_000));
    assert_eq!(g.activity_type, ActivityType::Game);
    assert_eq!(g.name, "chess");
    let l = Activity::listening_at("radio", None);
    assert_eq!(l.created_at, None);
    assert_eq!(l.activity_type, ActivityType::Listening);
    let s = Activity::streaming_at("live", "https://twitch.tv/x", Some(7));
    assert_eq!(s.created_at, Some(7));
    assert_eq!(s.url.as_deref(), Some("https://twitch.tv/x"));
    let c = Activity::custom_at("busy", Emoji::named("x"), Some(0));
    assert_eq!(c.created_at, Some(0));
    assert_eq!(c.name, "Custom Status");
    assert_eq!(c.state.as_deref(), Some("busy"));
}
