use message_model::error::ModelError;
use message_model::json::{JsonMap, Value};
use message_model::message::Message;

fn text(n: usize) -> String {
    "a".repeat(n)
}

fn s(value: &str) -> Value {
    Value::String(value.to_string())
}

fn object(entries: Vec<(&str, Value)>) -> Value {
    let mut map = JsonMap::new();
    for (key, value) in entries {
        map.set(key, value);
    }
    Value::Object(map)
}

fn payload(entries: Vec<(&str, Value)>) -> JsonMap {
    let mut map = JsonMap::new();
    for (key, value) in entries {
        map.set(key, value);
    }
    map
}

fn with_embeds(embeds: Vec<Value>) -> JsonMap {
    payload(vec![("embeds", Value::Array(embeds))])
}

fn empty_embeds(n: usize) -> Vec<Value> {
    (0..n).map(|_| object(vec![])).collect()
}

#[test]
fn overflow_length_within_limit_is_none() {
    assert_eq!(Message::overflow_length(""), None);
    assert_eq!(Message::overflow_length("hello"), None);
    assert_eq!(Message::overflow_length(&text(1999)), None);
    assert_eq!(Message::overflow_length(&text(2000)), None);
}

#[test]
fn overflow_length_counts_the_excess() {
    assert_eq!(Message::overflow_length(&text(2001)), Some(1));
    assert_eq!(Message::overflow_length(&text(2500)), Some(500));
    assert_eq!(Message::overflow_length(&text(10000)), Some(8000));
}

#[test]
fn overflow_length_counts_scalar_values_not_bytes() {
    let wide = "\u{1F600}".repeat(2000);
    assert_eq!(wide.len(), 8000);
    assert_eq!(Message::overflow_length(&wide), None);
    let wider = "\u{e9}".repeat(2002);
    assert_eq!(Message::overflow_length(&wider), Some(2));
}

#[test]
fn content_check_passes_without_content() {
    assert_eq!(Message::check_content_length(&JsonMap::new()), Ok(()));
    assert_eq!(Message::check_content_length(&payload(vec![("tts", Value::Bool(true))])), Ok(()));
}

#[test]
fn content_check_ignores_content_that_is_no_text() {
    assert_eq!(
        Message::check_content_length(&payload(vec![("content", Value::Number(5))])),
        Ok(())
    );
    let list = Value::Array((0..3000).map(|_| Value::Null).collect());
    assert_eq!(Message::check_content_length(&payload(vec![("content", list)])), Ok(()));
}

#[test]
fn content_check_at_the_limit() {
    assert_eq!(Message::check_content_length(&payload(vec![("content", s(&text(2000)))])), Ok(()));
    assert_eq!(
        Message::check_content_length(&payload(vec![("content", s(&text(2001)))])),
        Err(ModelError::ContentTooLong(1))
    );
    assert_eq!(
        Message::check_content_length(&payload(vec![("content", s(&text(2345)))])),
        Err(ModelError::ContentTooLong(345))
    );
}

#[test]
fn embed_check_passes_without_embeds() {
    assert_eq!(Message::check_embed_length(&JsonMap::new()), Ok(()));
    assert_eq!(Message::check_embed_length(&payload(vec![("embeds", s("none"))])), Ok(()));
    assert_eq!(Message::check_embed_length(&with_embeds(vec![])), Ok(()));
}

#[test]
fn embed_check_counts_the_embeds() {
    assert_eq!(Message::check_embed_length(&with_embeds(empty_embeds(1))), Ok(()));
    assert_eq!(Message::check_embed_length(&with_embeds(empty_embeds(10))), Ok(()));
    assert_eq!(
        Message::check_embed_length(&with_embeds(empty_embeds(11))),
        Err(ModelError::TooManyEmbeds)
    );
    assert_eq!(
        Message::check_embed_length(&with_embeds(empty_embeds(50))),
        Err(ModelError::TooManyEmbeds)
    );
}

#[test]
fn embed_count_comes_before_embed_size() {
    let mut embeds = empty_embeds(10);
    embeds.insert(0, object(vec![("title", s(&text(7000)))]));
    assert_eq!(Message::check_embed_length(&with_embeds(embeds)), Err(ModelError::TooManyEmbeds));
    let not_objects: Vec<Value> = (0..11).map(|_| Value::Null).collect();
    assert_eq!(
        Message::check_embed_length(&with_embeds(not_objects)),
        Err(ModelError::TooManyEmbeds)
    );
}

#[test]
fn embed_size_at_the_limit() {
    let fits = object(vec![("description", s(&text(6000)))]);
    assert_eq!(Message::check_embed_length(&with_embeds(vec![fits])), Ok(()));
    let over = object(vec![("description", s(&text(6001)))]);
    assert_eq!(
        Message::check_embed_length(&with_embeds(vec![over])),
        Err(ModelError::EmbedTooLarge(1))
    );
}

#[test]
fn embed_size_sums_every_tracked_text() {
    let embed = object(vec![
        ("author", object(vec![("name", s(&text(1000))), ("url", s(&text(9000)))])),
        ("description", s(&text(2000))),
        (
            "fields",
            Value::Array(vec![
                object(vec![("name", s(&text(100))), ("value", s(&text(900))), ("inline", Value::Bool(true))]),
                object(vec![("name", s(&text(200))), ("value", s(&text(800)))]),
                s(&text(5000)),
            ]),
        ),
        ("footer", object(vec![("text", s(&text(500))), ("icon_url", s(&text(9000)))])),
        ("title", s(&text(600))),
        ("url", s(&text(9000))),
    ]);
    // 1000 + 2000 + 1000 + 1000 + 500 + 600
    assert_eq!(
        Message::check_embed_length(&with_embeds(vec![embed])),
        Err(ModelError::EmbedTooLarge(100))
    );
}

#[test]
fn embed_size_counts_each_part_alone() {
    for part in ["description", "title"] {
        let embed = object(vec![(part, s(&text(6005)))]);
        assert_eq!(
            Message::check_embed_length(&with_embeds(vec![embed])),
            Err(ModelError::EmbedTooLarge(5)),
            "{}",
            part
        );
    }
    let by_author = object(vec![("author", object(vec![("name", s(&text(6002)))]))]);
    assert_eq!(
        Message::check_embed_length(&with_embeds(vec![by_author])),
        Err(ModelError::EmbedTooLarge(2))
    );
    let by_footer = object(vec![("footer", object(vec![("text", s(&text(6003)))]))]);
    assert_eq!(
        Message::check_embed_length(&with_embeds(vec![by_footer])),
        Err(ModelError::EmbedTooLarge(3))
    );
    let by_field_name = object(vec![("fields", Value::Array(vec![object(vec![("name", s(&text(6004)))])]))]);
    assert_eq!(
        Message::check_embed_length(&with_embeds(vec![by_field_name])),
        Err(ModelError::EmbedTooLarge(4))
    );
    let by_field_value = object(vec![("fields", Value::Array(vec![object(vec![("value", s(&text(6006)))])]))]);
    assert_eq!(
        Message::check_embed_length(&with_embeds(vec![by_field_value])),
        Err(ModelError::EmbedTooLarge(6))
    );
}

#[test]
fn embed_size_ignores_what_is_no_text() {
    let embed = object(vec![
        ("description", Value::Number(7000)),
        ("title", Value::Array(vec![s(&text(7000))])),
        ("author", s(&text(7000))),
        ("footer", object(vec![("text", Value::Null)])),
        ("fields", object(vec![("name", s(&text(7000)))])),
    ]);
    assert_eq!(Message::check_embed_length(&with_embeds(vec![embed])), Ok(()));
    assert_eq!(Message::check_embed_length(&with_embeds(vec![s(&text(7000))])), Ok(()));
}

#[test]
fn embed_size_is_counted_in_bytes() {
    let wide = "\u{e9}".repeat(3001);
    let embed = object(vec![("title", s(&wide))]);
    assert_eq!(
        Message::check_embed_length(&with_embeds(vec![embed])),
        Err(ModelError::EmbedTooLarge(2))
    );
    let fits = object(vec![("title", s(&"\u{e9}".repeat(3000)))]);
    assert_eq!(Message::check_embed_length(&with_embeds(vec![fits])), Ok(()));
}

#[test]
fn the_first_embed_that_is_too_large_is_reported() {
    let embeds = vec![
        object(vec![("title", s(&text(6000)))]),
        object(vec![("title", s(&text(6010)))]),
        object(vec![("title", s(&text(6999)))]),
    ];
    assert_eq!(Message::check_embed_length(&with_embeds(embeds)), Err(ModelError::EmbedTooLarge(10)));
}

#[test]
fn embeds_are_judged_one_by_one() {
    let embeds: Vec<Value> = (0..10).map(|_| object(vec![("title", s(&text(6000)))])).collect();
    assert_eq!(Message::check_embed_length(&with_embeds(embeds)), Ok(()));
}

#[test]
fn sticker_check_counts_the_ids() {
    let ids = |n: u64| Value::Array((0..n).map(Value::Number).collect());
    assert_eq!(Message::check_sticker_ids_length(&JsonMap::new()), Ok(()));
    assert_eq!(Message::check_sticker_ids_length(&payload(vec![("sticker_ids", ids(0))])), Ok(()));
    assert_eq!(Message::check_sticker_ids_length(&payload(vec![("sticker_ids", ids(3))])), Ok(()));
    assert_eq!(
        Message::check_sticker_ids_length(&payload(vec![("sticker_ids", ids(4))])),
        Err(ModelError::TooManyStickers)
    );
    assert_eq!(Message::check_sticker_ids_length(&payload(vec![("sticker_ids", s("many"))])), Ok(()));
}

#[test]
fn check_lengths_passes_a_payload_within_the_limits() {
    let map = payload(vec![
        ("content", s(&text(2000))),
        ("embeds", Value::Array(vec![object(vec![("title", s(&text(6000)))])])),
        ("sticker_ids", Value::Array(vec![Value::Number(1)])),
    ]);
    assert_eq!(Message::check_lengths(&map), Ok(()));
    assert_eq!(Message::check_lengths(&JsonMap::new()), Ok(()));
}

#[test]
fn check_lengths_reports_content_before_embeds() {
    let map = payload(vec![
        ("embeds", Value::Array(empty_embeds(11))),
        ("content", s(&text(2003))),
    ]);
    assert_eq!(Message::check_lengths(&map), Err(ModelError::ContentTooLong(3)));
    assert_eq!(Message::check_embed_length(&map), Err(ModelError::TooManyEmbeds));
}

#[test]
fn check_lengths_reports_embeds_before_stickers() {
    let many = Value::Array((0..9).map(Value::Number).collect());
    let map = payload(vec![
        ("sticker_ids", many),
        ("embeds", Value::Array(vec![object(vec![("title", s(&text(6100)))])])),
        ("content", s("fine")),
    ]);
    assert_eq!(Message::check_lengths(&map), Err(ModelError::EmbedTooLarge(100)));
    assert_eq!(Message::check_sticker_ids_length(&map), Err(ModelError::TooManyStickers));
}

#[test]
fn check_lengths_reports_stickers_last() {
    let many = Value::Array((0..4).map(Value::Number).collect());
    let map = payload(vec![("sticker_ids", many), ("content", s("fine"))]);
    assert_eq!(Message::check_lengths(&map), Err(ModelError::TooManyStickers));
}
