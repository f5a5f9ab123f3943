use channel_service::channel::ChannelStore;
use channel_service::channels::AddChannel;
use channel_service::channels::ChannelData;
use channel_service::channels::ChannelID;
use channel_service::channels::add_channel;
use channel_service::channels::delete_channel;
use channel_service::channels::get_channel;
use channel_service::channels::update_channel;

fn sample_add_channel(channel_id: i64) -> AddChannel {
    AddChannel {
        channel_id,
        channel_name: "general".to_owned(),
        guild_id: 10,
        guild_name: "Guild".to_owned(),
        added_by: 99,
        suppress: Some(false),
    }
}

#[test]
fn create_channel() {
    let mut store = ChannelStore::new();
    let response = add_channel(&mut store, sample_add_channel(7), 1_000);
    assert_eq!(response, Ok(201));
}

#[test]
fn create_channel_twice() {
    let mut store = ChannelStore::new();
    assert_eq!(add_channel(&mut store, sample_add_channel(7), 1_000), Ok(201));

    let second = add_channel(&mut store, sample_add_channel(7), 2_000);
    let (status, _body) = second.expect_err("a duplicate identifier must be rejected");
    assert_eq!(status, 409);
}

#[test]
fn get_channel_answers_with_the_stored_fields() {
    let mut store = ChannelStore::new();
    assert_eq!(add_channel(&mut store, sample_add_channel(7), 1_000), Ok(201));

    let data = get_channel(&store, ChannelID { channel_id: 7 })
        .expect("a created record must be readable");
    assert_eq!(data.channel_name.as_deref(), Some("general"));
    assert_eq!(data.guild_id, Some(10));
    assert_eq!(data.guild_name.as_deref(), Some("Guild"));
    assert_eq!(data.suppress, Some(false));
    assert_eq!(data.channel_id, None);
}

#[test]
fn get_channel_of_missing_identifier_is_not_found() {
    let store = ChannelStore::new();
    let (status, body) = get_channel(&store, ChannelID { channel_id: 8 })
        .expect_err("a missing identifier must not be found");
    assert_eq!(status, 404);
    assert_eq!(body.message, "Could not find 8");
    assert_eq!(body.sqlstate, None);
}

#[test]
fn update_channel_merges_the_supplied_field() {
    let mut store = ChannelStore::new();
    assert_eq!(add_channel(&mut store, sample_add_channel(7), 1_000), Ok(201));

    let patch = ChannelData {
        channel_id: None,
        channel_name: None,
        guild_id: None,
        guild_name: None,
        suppress: Some(true),
    };
    assert_eq!(update_channel(&mut store, ChannelID { channel_id: 7 }, patch), Ok(200));

    let data = store.get(7).expect("the record must still be readable");
    assert_eq!(data.suppress, Some(true));
    assert_eq!(data.channel_name.as_deref(), Some("general"));
}

#[test]
fn delete_channel_succeeds_with_and_without_a_record() {
    let mut store = ChannelStore::new();
    assert_eq!(add_channel(&mut store, sample_add_channel(7), 1_000), Ok(201));

    assert_eq!(delete_channel(&mut store, ChannelID { channel_id: 7 }), Ok(200));
    assert!(store.get(7).is_err());
    assert_eq!(delete_channel(&mut store, ChannelID { channel_id: 7 }), Ok(200));
}
