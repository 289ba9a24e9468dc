use fellowship_bot::commands::{
    age_reply, age_subject, announcement, quiet_time_post, shared_reply, Account, CommandError,
    QuietTimeForm,
};
use fellowship_bot::config::{registration_scope, required, required_id, ConfigError, RegistrationScope};
use fellowship_bot::profile::{
    birthday_confirmation, encode_profile, profile_json, profile_key, profile_record,
    record_legal_birthday, BirthdayError, LegalBirthday, SpiritualBirthday, UserData,
};
use fellowship_bot::store::{get_outcome, put_outcome, RedisClient, StoreError};
use fellowship_bot::text::{decimal_string, parse_id};

fn account(id: u64, name: Option<&str>, created_at: &str) -> Account {
    Account {
        id,
        global_name: name.map(|n| n.to_string()),
        created_at: created_at.to_string(),
    }
}

fn form(start: &str, end: &str, summary: Option<&str>) -> QuietTimeForm {
    QuietTimeForm {
        start_verse: start.to_string(),
        end_verse: end.to_string(),
        summary: summary.map(|s| s.to_string()),
    }
}

fn io_error() -> redis::RedisError {
    redis::RedisError::from((redis::ErrorKind::IoError, "connection refused"))
}

#[test]
fn test_redis_connection() {
    let client = RedisClient::new("redis://127.0.0.1:6379/");
    assert!(client.is_ok(), "Failed to connect to Redis");
}

#[test]
fn redis_client_refuses_a_malformed_uri() {
    assert_eq!(RedisClient::new("not a uri").err(), Some(StoreError::InvalidUri));
}

#[test]
fn birthday_is_recorded_with_year() {
    let (user, reply) = record_legal_birthday("<@42>".to_string(), 42, 7, 4, 1990).unwrap();
    assert_eq!(reply, "Hey <@42>! Your birthday is saved as 7/4/1990!");
    assert_eq!(user.name, "<@42>");
    assert_eq!(user.user_id, 42);
    assert_eq!(user.age, None);
    assert_eq!(user.legal_birthday, Some(LegalBirthday::new(7, 4, Some(1990))));
    assert_eq!(user.spiritual_birthday, None);
}

#[test]
fn birthday_edges_of_the_ranges_are_accepted() {
    let (_, reply) = record_legal_birthday("Ann".to_string(), 1, 12, 31, 0).unwrap();
    assert_eq!(reply, "Hey Ann! Your birthday is saved as 12/31/0!");
    let (_, reply) = record_legal_birthday("Ann".to_string(), 1, 1, 1, u32::MAX).unwrap();
    assert_eq!(reply, "Hey Ann! Your birthday is saved as 1/1/4294967295!");
}

#[test]
fn birthday_out_of_range_is_refused() {
    assert_eq!(record_legal_birthday("A".to_string(), 1, 0, 5, 2000).err(), Some(BirthdayError::MonthOutOfRange));
    assert_eq!(record_legal_birthday("A".to_string(), 1, 13, 5, 2000).err(), Some(BirthdayError::MonthOutOfRange));
    assert_eq!(record_legal_birthday("A".to_string(), 1, 5, 0, 2000).err(), Some(BirthdayError::DayOutOfRange));
    assert_eq!(record_legal_birthday("A".to_string(), 1, 5, 32, 2000).err(), Some(BirthdayError::DayOutOfRange));
}

#[test]
fn birthday_confirmation_without_year() {
    let b = LegalBirthday::new(3, 9, None);
    assert_eq!(birthday_confirmation("Ann", &b), "Hey Ann! Your birthday is saved as 3/9!");
}

#[test]
fn spiritual_birthday_keeps_its_fields() {
    let s = SpiritualBirthday::new(2, 29, Some(2004));
    assert_eq!((s.month, s.day, s.year), (2, 29, Some(2004)));
}

#[test]
fn user_data_updates_touch_one_field() {
    let mut u = UserData::new("Ann".to_string(), 9);
    u.update_name("Bea".to_string());
    u.update_age(30);
    u.update_legal_birthday(LegalBirthday::new(1, 2, None));
    u.update_spiritual_birthday(SpiritualBirthday::new(3, 4, Some(2010)));
    assert_eq!(u.name, "Bea");
    assert_eq!(u.user_id, 9);
    assert_eq!(u.age, Some(30));
    assert_eq!(u.legal_birthday, Some(LegalBirthday::new(1, 2, None)));
    assert_eq!(u.spiritual_birthday, Some(SpiritualBirthday::new(3, 4, Some(2010))));
}

#[test]
fn decimal_rendering() {
    assert_eq!(decimal_string(0), "0");
    assert_eq!(decimal_string(907), "907");
    assert_eq!(decimal_string(u64::MAX), "18446744073709551615");
}

#[test]
fn profile_key_is_the_user_id() {
    assert_eq!(profile_key(123456789012345678), "123456789012345678");
}

#[test]
fn profile_json_is_exact() {
    let mut u = UserData::new("Ann".to_string(), 5);
    u.update_legal_birthday(LegalBirthday::new(7, 4, Some(1990)));
    assert_eq!(
        profile_json(&u, "\"Ann\""),
        "{\"name\":\"Ann\",\"user_id\":\"5\",\"age\":null,\"legal_birthday\":{\"month\":7,\"day\":4,\"year\":1990},\"spiritual_birthday\":null}"
    );
}

#[test]
fn encode_profile_escapes_the_name() {
    let mut u = UserData::new("A \"q\"".to_string(), 7);
    u.update_age(20);
    u.update_spiritual_birthday(SpiritualBirthday::new(5, 6, None));
    assert_eq!(
        encode_profile(&u),
        "{\"name\":\"A \\\"q\\\"\",\"user_id\":\"7\",\"age\":20,\"legal_birthday\":null,\"spiritual_birthday\":{\"month\":5,\"day\":6,\"year\":null}}"
    );
}

#[test]
fn profile_record_reads_back_equal() {
    let mut u = UserData::new("Zoë \\ tab\t".to_string(), 77);
    u.update_legal_birthday(LegalBirthday::new(11, 30, Some(1988)));
    let (key, value) = profile_record(&u);
    assert_eq!(key, "77");
    let v: serde_json::Value = serde_json::from_str(&value).unwrap();
    assert_eq!(v["name"], "Zoë \\ tab\t");
    assert_eq!(v["user_id"], "77");
    assert!(v["age"].is_null());
    assert_eq!(v["legal_birthday"]["month"], 11);
    assert_eq!(v["legal_birthday"]["day"], 30);
    assert_eq!(v["legal_birthday"]["year"], 1988);
    assert!(v["spiritual_birthday"].is_null());
}

#[test]
fn announcement_without_message_fails() {
    assert_eq!(announcement(None), Err(CommandError::MissingMessage));
}

#[test]
fn announcement_posts_the_message() {
    assert_eq!(announcement(Some("Service at 10".to_string())), Ok("Service at 10".to_string()));
}

#[test]
fn age_defaults_to_invoker() {
    let me = account(1, Some("Ann"), "2020-01-02T03:04:05Z");
    assert_eq!(age_reply(me.clone(), None), Ok("Ann's account was created at 2020-01-02T03:04:05Z".to_string()));
    assert_eq!(age_subject(me, None).id, 1);
}

#[test]
fn age_of_selected_user() {
    let me = account(1, Some("Ann"), "2020-01-02T03:04:05Z");
    let other = account(2, Some("Bob"), "2019-05-06T07:08:09Z");
    assert_eq!(age_reply(me, Some(other)), Ok("Bob's account was created at 2019-05-06T07:08:09Z".to_string()));
}

#[test]
fn age_without_global_name_fails() {
    let me = account(1, None, "2020-01-02T03:04:05Z");
    assert_eq!(age_reply(me, None), Err(CommandError::MissingGlobalName));
}

#[test]
fn quiet_time_without_summary_has_no_summary() {
    let p = quiet_time_post(Some("Ann".to_string()), form("John 3:16", "John 3:21", None)).unwrap();
    assert_eq!(p.author, "Ann");
    assert_eq!(p.title, "Ann's Quiet Time");
    assert_eq!(p.verses, "From **John 3:16** to **John 3:21**");
    assert_eq!(p.summary, None);
}

#[test]
fn quiet_time_summary_is_verbatim() {
    let p = quiet_time_post(Some("Ann".to_string()), form("Ps 1:1", "Ps 1:6", Some("  Two ways.  "))).unwrap();
    assert_eq!(p.summary, Some("  Two ways.  ".to_string()));
}

#[test]
fn quiet_time_verse_bounds() {
    assert!(quiet_time_post(Some("A".to_string()), form("Ps1:1", "abcdefghijklmno", None)).is_ok());
    assert_eq!(
        quiet_time_post(Some("A".to_string()), form("Ps1:", "Ps 1:6", None)).err(),
        Some(CommandError::StartVerseLength)
    );
    assert_eq!(
        quiet_time_post(Some("A".to_string()), form("abcdefghijklmnop", "Ps 1:6", None)).err(),
        Some(CommandError::StartVerseLength)
    );
    assert_eq!(
        quiet_time_post(Some("A".to_string()), form("Ps 1:1", "Ps1", None)).err(),
        Some(CommandError::EndVerseLength)
    );
    assert_eq!(
        quiet_time_post(Some("A".to_string()), form("Ps 1:1", "abcdefghijklmnop", None)).err(),
        Some(CommandError::EndVerseLength)
    );
}

#[test]
fn quiet_time_summary_bounds() {
    let long = "x".repeat(1025);
    assert_eq!(
        quiet_time_post(Some("A".to_string()), form("Ps 1:1", "Ps 1:6", Some("abcd"))).err(),
        Some(CommandError::SummaryLength)
    );
    assert_eq!(
        quiet_time_post(Some("A".to_string()), form("Ps 1:1", "Ps 1:6", Some(&long))).err(),
        Some(CommandError::SummaryLength)
    );
    assert!(quiet_time_post(Some("A".to_string()), form("Ps 1:1", "Ps 1:6", Some(&long[..1024]))).is_ok());
}

#[test]
fn quiet_time_without_global_name_fails() {
    assert_eq!(
        quiet_time_post(None, form("Ps 1:1", "Ps 1:6", None)).err(),
        Some(CommandError::MissingGlobalName)
    );
}

#[test]
fn quiet_time_shared_reply_mentions_user() {
    assert_eq!(shared_reply(42), "Hey <@42>! Your quiet time has been shared!");
}

#[test]
fn ids_are_parsed_in_decimal() {
    assert_eq!(parse_id("123"), Some(123));
    assert_eq!(parse_id("0"), Some(0));
    assert_eq!(parse_id("18446744073709551615"), Some(u64::MAX));
    assert_eq!(parse_id("18446744073709551616"), None);
    assert_eq!(parse_id(""), None);
    assert_eq!(parse_id("12a"), None);
    assert_eq!(parse_id("-1"), None);
    assert_eq!(parse_id("+5"), Some(5));
    assert_eq!(parse_id("+"), None);
    assert_eq!(parse_id("++5"), None);
    assert_eq!(parse_id("+18446744073709551616"), None);
}

#[test]
fn configuration_decisions() {
    assert_eq!(registration_scope(None), Ok(RegistrationScope::Global));
    assert_eq!(registration_scope(Some("99".to_string())), Ok(RegistrationScope::Guild(99)));
    assert_eq!(registration_scope(Some("x".to_string())), Err(ConfigError::NotAnId));
    assert_eq!(registration_scope(Some("+5".to_string())), Ok(RegistrationScope::Guild(5)));
    assert_eq!(registration_scope(Some("0".to_string())), Err(ConfigError::ZeroId));
    assert_eq!(required_id(Some("+0".to_string())), Err(ConfigError::ZeroId));
    assert_eq!(required_id(None), Err(ConfigError::Missing));
    assert_eq!(required_id(Some("7".to_string())), Ok(7));
    assert_eq!(required(None), Err(ConfigError::Missing));
    assert_eq!(required(Some("t".to_string())), Ok("t".to_string()));
}

#[test]
fn store_outcomes_are_classified() {
    assert_eq!(put_outcome(Err(io_error())), Err(StoreError::ConnectionUnavailable));
    assert_eq!(put_outcome(Ok(Err(io_error()))), Err(StoreError::RemoteRejected));
    assert_eq!(put_outcome(Ok(Ok(()))), Ok(()));
    assert_eq!(get_outcome(Err(io_error())), Err(StoreError::ConnectionUnavailable));
    assert_eq!(get_outcome(Ok(Err(io_error()))), Err(StoreError::ConnectionUnavailable));
    assert_eq!(get_outcome(Ok(Ok(None))), Err(StoreError::NotFound));
    assert_eq!(get_outcome(Ok(Ok(Some("v".to_string())))), Ok("v".to_string()));
}

#[test]
fn names_are_escaped_as_json_strings() {
    let u = UserData::new("a\u{1}b\u{1f}\n\u{8}\u{c}\r\t/\u{7f}é".to_string(), 3);
    assert_eq!(
        encode_profile(&u),
        "{\"name\":\"a\\u0001b\\u001f\\n\\b\\f\\r\\t/\u{7f}é\",\"user_id\":\"3\",\"age\":null,\"legal_birthday\":null,\"spiritual_birthday\":null}"
    );
}

#[test]
fn redis_client_accepts_a_unix_socket_uri() {
    assert!(RedisClient::new("redis+unix:///tmp/redis.sock").is_ok());
}
