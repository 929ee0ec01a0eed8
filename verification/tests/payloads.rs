//! Typed payload decoding for the per-endpoint data shapes.

use vkrs::audio::{Audio, Genre};
use vkrs::gifts::{Gift, GiftItem, GiftPrivacy};
use vkrs::json::{DecodeError, FromJson, Json};
use vkrs::photos::{Thumb, ThumbKind, UploadUrl};
use vkrs::status::Status;
use vkrs::users::{Sex, Status as Relation};
use vkrs::utils::{LinkInfo, LinkStatus, ScreenNameInfo};
use vkrs::video::VideoFiles;
use vkrs::wall::{CommentsCount, PostId};

fn obj(entries: Vec<(&str, Json)>) -> Json {
    Json::Obj(
        entries
            .into_iter()
            .map(|(k, v)| (k.to_owned(), v))
            .collect(),
    )
}

fn s(text: &str) -> Json {
    Json::Str(text.to_owned())
}

#[test]
fn genre_ids_round_trip() {
    for v in [1u32, 2, 3, 7, 18, 19, 21, 22, 99] {
        assert_eq!(Genre::from_id(v).id(), v);
    }
    assert_eq!(Genre::from_id(21), Genre::Alternative);
    assert_eq!(Genre::from_id(99), Genre::Unknown(99));
    assert_eq!(Genre::Rock.name(), "rock");
}

#[test]
fn audio_decodes_with_optional_fields_missing() {
    let body = obj(vec![
        ("id", Json::UInt(1)),
        ("owner_id", Json::Int(-5)),
        ("artist", s("they")),
        ("title", s("that song")),
        ("duration", Json::UInt(180)),
        ("url", s("https://cdn.example/1.mp3")),
    ]);
    let a = Audio::from_json(&body).unwrap();
    assert_eq!(a.id, 1);
    assert_eq!(a.owner_id, -5);
    assert_eq!(a.artist, "they");
    assert_eq!(a.duration, 180);
    assert_eq!(a.genre, None);
    assert_eq!(a.lyrics_id, None);
}

#[test]
fn audio_decodes_genre_id() {
    let body = obj(vec![
        ("id", Json::UInt(1)),
        ("owner_id", Json::UInt(5)),
        ("artist", s("a")),
        ("title", s("t")),
        ("duration", Json::UInt(1)),
        ("url", s("u")),
        ("genre_id", Json::UInt(16)),
    ]);
    assert_eq!(Audio::from_json(&body).unwrap().genre, Some(Genre::Classical));
}

#[test]
fn audio_without_title_is_type_mismatch() {
    let body = obj(vec![("id", Json::UInt(1))]);
    assert_eq!(Audio::from_json(&body), Err(DecodeError::TypeMismatch));
}

#[test]
fn status_decodes_with_and_without_track() {
    let plain = obj(vec![("text", s("hello"))]);
    let st = Status::from_json(&plain).unwrap();
    assert_eq!(st.text, "hello");
    assert!(st.audio.is_none());

    let audio = obj(vec![
        ("id", Json::UInt(1)),
        ("owner_id", Json::UInt(5)),
        ("artist", s("a")),
        ("title", s("t")),
        ("duration", Json::UInt(1)),
        ("url", s("u")),
    ]);
    let with = obj(vec![("text", s("listening")), ("audio", audio)]);
    assert!(Status::from_json(&with).unwrap().audio.is_some());
}

#[test]
fn gift_item_decodes_nested_gift_and_privacy() {
    let gift = obj(vec![
        ("id", Json::UInt(3)),
        ("thumb_256", s("u256")),
        ("thumb_96", s("u96")),
        ("thumb_48", s("u48")),
    ]);
    let item = obj(vec![
        ("id", Json::UInt(9)),
        ("from_id", Json::Int(-2)),
        ("message", s("hi")),
        ("date", Json::UInt(1000)),
        ("gift", gift),
        ("privacy", Json::UInt(1)),
    ]);
    let g = GiftItem::from_json(&item).unwrap();
    assert_eq!(g.privacy, GiftPrivacy::SenderNameOnly);
    assert_eq!(g.gift, Gift {
        id: 3,
        thumb_256: "u256".to_owned(),
        thumb_96: "u96".to_owned(),
        thumb_48: "u48".to_owned(),
    });
}

#[test]
fn gift_privacy_outside_the_table_fails() {
    assert_eq!(GiftPrivacy::from_id(3), None);
    assert_eq!(
        GiftPrivacy::from_json(&Json::UInt(3)),
        Err(DecodeError::TypeMismatch)
    );
}

#[test]
fn thumb_decodes_its_kind_letter() {
    let body = obj(vec![
        ("src", s("u")),
        ("width", Json::UInt(130)),
        ("height", Json::UInt(97)),
        ("type", s("m")),
    ]);
    assert_eq!(Thumb::from_json(&body).unwrap().kind, ThumbKind::Prop130);
    assert_eq!(ThumbKind::from_str("w"), Ok(ThumbKind::Prop2560x2048));
    assert!(ThumbKind::from_str("v").is_err());
}

#[test]
fn upload_url_decodes() {
    let body = obj(vec![("upload_url", s("https://up.example"))]);
    assert_eq!(
        UploadUrl::from_json(&body).unwrap().upload_url,
        "https://up.example"
    );
}

#[test]
fn link_info_decodes_its_status_word() {
    let body = obj(vec![("status", s("banned")), ("link", s("https://x"))]);
    let info = LinkInfo::from_json(&body).unwrap();
    assert_eq!(info.status, LinkStatus::Banned);
    let bad = obj(vec![("status", s("odd")), ("link", s("https://x"))]);
    assert_eq!(LinkInfo::from_json(&bad), Err(DecodeError::TypeMismatch));
}

#[test]
fn screen_name_info_reads_the_type_key() {
    let body = obj(vec![("type", s("user")), ("object_id", Json::UInt(12))]);
    let info = ScreenNameInfo::from_json(&body).unwrap();
    assert_eq!(info.kind, "user");
    assert_eq!(info.object_id, 12);
}

#[test]
fn video_files_decode_partial_renditions() {
    let body = obj(vec![("mp4_360", s("u360"))]);
    let files = VideoFiles::from_json(&body).unwrap();
    assert_eq!(files.mp4_360.as_deref(), Some("u360"));
    assert_eq!(files.mp4_240, None);
}

#[test]
fn wall_counters_and_post_id_decode() {
    let c = obj(vec![("count", Json::UInt(4)), ("can_post", Json::UInt(1))]);
    assert_eq!(
        CommentsCount::from_json(&c).unwrap(),
        CommentsCount { count: 4, can_post: 1 }
    );
    let p = obj(vec![("post_id", Json::UInt(77))]);
    assert_eq!(PostId::from_json(&p).unwrap().post_id, 77);
}

#[test]
fn numeric_wire_tables_agree() {
    assert_eq!(Sex::Female.as_str(), "1");
    assert_eq!(Sex::from_id(2), Some(Sex::Male));
    assert_eq!(Sex::from_id(5), None);
    assert_eq!(Relation::InLove.as_str(), "7");
    assert_eq!(Relation::from_id(4), Some(Relation::Married));
    assert_eq!(
        vkrs::account::BirthdateVisibility::from_id(2),
        Some(vkrs::account::BirthdateVisibility::ShowMD)
    );
    assert_eq!(vkrs::users::Radius::R18000.as_str(), "3");
    assert_eq!(vkrs::photos::Sort::default(), vkrs::photos::Sort::Popularity);
    assert_eq!(vkrs::api::ReportReason::default(), vkrs::api::ReportReason::Spam);
    assert_eq!(vkrs::video::Privacy::OnlyMe.as_str(), "3");
    assert_eq!(
        vkrs::video::CatalogItemKind::from_str("album"),
        Ok(vkrs::video::CatalogItemKind::Album)
    );
}
