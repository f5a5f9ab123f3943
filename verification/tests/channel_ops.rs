use channel_service::channel::ChannelStore;
use channel_service::channel::Create;
use channel_service::channel::Data;

fn sample_create(channel_id: i64) -> Create {
    Create {
        channel_id,
        channel_name: "general".to_owned(),
        guild_id: 10,
        guild_name: "Guild".to_owned(),
        added_by: 99,
        suppress: Some(false),
    }
}

fn empty_patch() -> Data {
    Data {
        channel_id: None,
        channel_name: None,
        guild_id: None,
        guild_name: None,
        suppress: None,
    }
}

fn suppress_patch(value: bool) -> Data {
    Data { suppress: Some(value), ..empty_patch() }
}

#[test]
fn create_test() {
    let mut store = ChannelStore::new();
    let response = store.add(sample_create(7), 1_000);
    assert_eq!(response, Ok(201));
}

#[test]
fn create_twice_test() {
    let mut store = ChannelStore::new();
    let first = store.add(sample_create(7), 1_000);
    assert_eq!(first, Ok(201));

    let second = store.add(sample_create(7), 2_000);
    let (status, body) = second.expect_err("a duplicate identifier must be rejected");
    assert_eq!(status, 409);
    assert!(!body.message.is_empty());
    assert!(!body.sqlstate.as_deref().unwrap_or("").is_empty());
}

#[test]
fn get_test() {
    let mut store = ChannelStore::new();
    assert_eq!(store.add(sample_create(7), 1_000), Ok(201));

    let data = store.get(7).expect("a created record must be readable");
    assert_eq!(data.channel_name.as_deref(), Some("general"));
    assert_eq!(data.guild_id, Some(10));
    assert_eq!(data.guild_name.as_deref(), Some("Guild"));
    assert_eq!(data.suppress, Some(false));
    assert_eq!(data.channel_id, None);
}

#[test]
fn get_invalid() {
    let store = ChannelStore::new();
    let (status, body) = store.get(7).expect_err("a missing identifier must not be found");
    assert_eq!(status, 404);
    assert_eq!(body.message, format!("Could not find {}", 7));
    assert_eq!(body.sqlstate, None);
}

#[test]
fn get_invalid_negative_identifier() {
    let store = ChannelStore::new();
    let (status, body) = store.get(-5).expect_err("a missing identifier must not be found");
    assert_eq!(status, 404);
    assert_eq!(body.message, "Could not find -5");
}

#[test]
fn update_test() {
    let mut store = ChannelStore::new();
    assert_eq!(store.add(sample_create(7), 1_000), Ok(201));

    assert_eq!(store.update(7, suppress_patch(true)), Ok(200));

    let data = store.get(7).expect("the record must still be readable");
    assert_eq!(data.channel_name.as_deref(), Some("general"));
    assert_eq!(data.guild_id, Some(10));
    assert_eq!(data.guild_name.as_deref(), Some("Guild"));
    assert_eq!(data.suppress, Some(true));
}

#[test]
fn update_with_empty_payload_changes_nothing() {
    let mut store = ChannelStore::new();
    assert_eq!(store.add(sample_create(7), 1_000), Ok(201));

    assert_eq!(store.update(7, empty_patch()), Ok(200));

    let data = store.get(7).expect("the record must still be readable");
    assert_eq!(data.channel_name.as_deref(), Some("general"));
    assert_eq!(data.guild_id, Some(10));
    assert_eq!(data.guild_name.as_deref(), Some("Guild"));
    assert_eq!(data.suppress, Some(false));
}

#[test]
fn update_of_missing_identifier_is_silent() {
    let mut store = ChannelStore::new();
    assert_eq!(store.update(7, suppress_patch(true)), Ok(200));
    assert!(store.get(7).is_err());
}

#[test]
fn update_overwrites_with_the_default_value() {
    let mut store = ChannelStore::new();
    let mut payload = sample_create(7);
    payload.suppress = Some(true);
    assert_eq!(store.add(payload, 1_000), Ok(201));

    assert_eq!(store.update(7, suppress_patch(false)), Ok(200));
    let data = store.get(7).expect("the record must still be readable");
    assert_eq!(data.suppress, Some(false));
}

#[test]
fn suppress_defaults_to_false_when_omitted() {
    let mut store = ChannelStore::new();
    let mut payload = sample_create(7);
    payload.suppress = None;
    assert_eq!(store.add(payload, 1_000), Ok(201));

    let data = store.get(7).expect("a created record must be readable");
    assert_eq!(data.suppress, Some(false));
}

#[test]
fn delete_is_idempotent() {
    let mut store = ChannelStore::new();
    assert_eq!(store.add(sample_create(7), 1_000), Ok(201));

    assert_eq!(store.delete(7), Ok(200));
    let (status, _) = store.get(7).expect_err("a deleted record must be gone");
    assert_eq!(status, 404);

    assert_eq!(store.delete(7), Ok(200));
    assert_eq!(store.delete(8), Ok(200));
}

#[test]
fn duplicate_create_leaves_the_first_record_intact() {
    let mut store = ChannelStore::new();
    assert_eq!(store.add(sample_create(7), 1_000), Ok(201));

    let mut other = sample_create(7);
    other.channel_name = "other".to_owned();
    other.guild_id = 11;
    other.suppress = Some(true);
    assert!(store.add(other, 2_000).is_err());

    let data = store.get(7).expect("the first record must still be readable");
    assert_eq!(data.channel_name.as_deref(), Some("general"));
    assert_eq!(data.guild_id, Some(10));
    assert_eq!(data.guild_name.as_deref(), Some("Guild"));
    assert_eq!(data.suppress, Some(false));
}

#[test]
fn concrete_scenario() {
    let mut store = ChannelStore::new();

    let create = Create {
        channel_id: 1,
        channel_name: "general".to_owned(),
        guild_id: 10,
        guild_name: "Guild".to_owned(),
        added_by: 99,
        suppress: Some(false),
    };
    assert_eq!(store.add(create, 1_000), Ok(201));

    let data = store.get(1).expect("the created record must be readable");
    assert_eq!(data.channel_name.as_deref(), Some("general"));
    assert_eq!(data.guild_id, Some(10));
    assert_eq!(data.guild_name.as_deref(), Some("Guild"));
    assert_eq!(data.suppress, Some(false));

    assert_eq!(store.update(1, suppress_patch(true)), Ok(200));

    let data = store.get(1).expect("the updated record must be readable");
    assert_eq!(data.channel_name.as_deref(), Some("general"));
    assert_eq!(data.guild_id, Some(10));
    assert_eq!(data.guild_name.as_deref(), Some("Guild"));
    assert_eq!(data.suppress, Some(true));

    let again = Create {
        channel_id: 1,
        channel_name: "general".to_owned(),
        guild_id: 10,
        guild_name: "Guild".to_owned(),
        added_by: 99,
        suppress: Some(false),
    };
    let (status, body) = store.add(again, 2_000).expect_err("the identifier is taken");
    assert_eq!(status, 409);
    assert!(!body.sqlstate.as_deref().unwrap_or("").is_empty());

    assert_eq!(store.delete(1), Ok(200));

    let (status, body) = store.get(1).expect_err("the deleted record must be gone");
    assert_eq!(status, 404);
    assert_eq!(body.message, "Could not find 1");
}
