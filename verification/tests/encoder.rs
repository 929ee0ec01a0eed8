//! The canonical query encoder: rendering, omission, ordering.

use vkrs::api::Request;
use vkrs::auth::{AccessToken, Permission, Permissions};
use vkrs::query::{encode_query, Field, Param, Scalar};

fn field(name: &str, value: Param) -> Field {
    Field {
        name: name.to_owned(),
        value,
    }
}

#[test]
fn encodes_scalars_in_declaration_order() {
    let fields = vec![
        field("a", Param::One(Scalar::Flag(true))),
        field("b", Param::One(Scalar::Flag(false))),
        field("c", Param::One(Scalar::Int(-42))),
        field("d", Param::One(Scalar::UInt(7))),
        field("e", Param::One(Scalar::Text("hi".to_owned()))),
    ];
    assert_eq!(encode_query(&fields), "a=1&b=0&c=-42&d=7&e=hi");
}

#[test]
fn empty_optional_field_is_dropped_entirely() {
    let fields = vec![
        field("q", Param::One(Scalar::Text("x".to_owned()))),
        field("offset", Param::Opt(None)),
        field("count", Param::One(Scalar::UInt(3))),
    ];
    let s = encode_query(&fields);
    assert_eq!(s, "q=x&count=3");
    assert!(!s.contains("offset"));
}

#[test]
fn present_optional_field_is_kept() {
    let fields = vec![field("offset", Param::Opt(Some(Scalar::UInt(10))))];
    assert_eq!(encode_query(&fields), "offset=10");
}

#[test]
fn empty_list_is_dropped_and_list_joins_with_encoded_comma() {
    let fields = vec![
        field("ids", Param::List(vec![])),
        field(
            "more",
            Param::List(vec![Scalar::UInt(1), Scalar::UInt(2), Scalar::UInt(3)]),
        ),
    ];
    assert_eq!(encode_query(&fields), "more=1%2C2%2C3");
}

#[test]
fn all_fields_absent_gives_empty_string() {
    let fields = vec![
        field("a", Param::Opt(None)),
        field("b", Param::List(vec![])),
    ];
    assert_eq!(encode_query(&fields), "");
}

#[test]
fn reserved_bytes_are_percent_encoded_upper_case() {
    let fields = vec![field("q", Param::One(Scalar::Text("a b&c=d".to_owned())))];
    assert_eq!(encode_query(&fields), "q=a%20b%26c%3Dd");
}

#[test]
fn unreserved_bytes_pass_through() {
    let fields = vec![field(
        "q",
        Param::One(Scalar::Text("AZaz09-._~".to_owned())),
    )];
    assert_eq!(encode_query(&fields), "q=AZaz09-._~");
}

#[test]
fn non_ascii_text_is_utf8_percent_encoded() {
    let fields = vec![field("q", Param::One(Scalar::Text("тест".to_owned())))];
    assert_eq!(encode_query(&fields), "q=%D1%82%D0%B5%D1%81%D1%82");
}

#[test]
fn extreme_integers_render_exactly() {
    let fields = vec![
        field("min", Param::One(Scalar::Int(i64::MIN))),
        field("max", Param::One(Scalar::UInt(u64::MAX))),
        field("zero", Param::One(Scalar::UInt(0))),
    ];
    assert_eq!(
        encode_query(&fields),
        "min=-9223372036854775808&max=18446744073709551615&zero=0"
    );
}

#[test]
fn encoding_is_deterministic() {
    let fields = vec![
        field("q", Param::One(Scalar::Text("test".to_owned()))),
        field("n", Param::One(Scalar::UInt(5))),
    ];
    assert_eq!(encode_query(&fields), encode_query(&fields));
}

#[test]
fn search_request_encodes_as_declared() {
    // The end-to-end shape: a search with a query, a flag, a count and
    // the version, empty optionals omitted, nothing duplicated.
    let req = Request::new("audio.search".to_owned())
        .with_text("q", "test")
        .with_flag("performer_only", true)
        .with_opt_uint("offset", None)
        .with_uint("count", 200)
        .with_text("v", "5.44");
    let query = req.to_query_string();
    assert_eq!(query, "q=test&performer_only=1&count=200&v=5.44");
    assert_eq!(query.matches("count=").count(), 1);
    assert_eq!(req.method_name(), "audio.search");
    assert_eq!(req.to_url(), "https://api.vk.com/method/audio.search");
}

#[test]
fn token_is_appended_as_exactly_one_trailing_pair() {
    let req = Request::new("audio.search".to_owned())
        .with_text("q", "test")
        .with_uint("count", 200);
    let token = AccessToken::new("sekret1".to_owned(), 42, None, None);
    let with = vkrs::api::request_query(&req, Some(&token));
    assert_eq!(with, "q=test&count=200&access_token=sekret1");
    let without = vkrs::api::request_query(&req, None);
    assert_eq!(without, "q=test&count=200");
}

#[test]
fn token_on_empty_query_has_no_leading_separator() {
    let req = Request::new("users.get".to_owned());
    let token = AccessToken::new("t".to_owned(), 1, None, None);
    assert_eq!(vkrs::api::request_query(&req, Some(&token)), "access_token=t");
}

#[test]
fn request_permissions_carry_through() {
    let req = Request::new("status.get".to_owned())
        .with_permissions(Permissions::from_flags(&[Permission::Status]));
    assert_eq!(req.permissions.raw_mask(), Permission::Status.mask());
}

#[test]
fn uint_list_builder_joins_ids() {
    let req = Request::new("audio.get".to_owned()).with_uint_list("audio_ids", &[5, 6, 7]);
    assert_eq!(req.to_query_string(), "audio_ids=5%2C6%2C7");
}

#[test]
fn removing_an_absent_field_leaves_the_encoding_unchanged() {
    let with_absent = vec![
        field("a", Param::One(Scalar::UInt(1))),
        field("gone", Param::Opt(None)),
        field("b", Param::One(Scalar::UInt(2))),
    ];
    let without = vec![
        field("a", Param::One(Scalar::UInt(1))),
        field("b", Param::One(Scalar::UInt(2))),
    ];
    assert_eq!(encode_query(&with_absent), encode_query(&without));
}

#[test]
fn with_version_appends_the_fixed_version_parameter() {
    let req = Request::new("utils.getServerTime".to_owned()).with_version();
    assert_eq!(req.to_query_string(), "v=5.44");
    assert_eq!(vkrs::api::VK_API_VERSION, "5.44");
}

#[test]
fn text_list_builder_joins_wire_words() {
    let words = vec![
        vkrs::users::UserOptionField::Verified.as_str().to_owned(),
        vkrs::users::UserOptionField::Sex.as_str().to_owned(),
    ];
    let req = Request::new("users.get".to_owned()).with_text_list("fields", &words);
    assert_eq!(req.to_query_string(), "fields=verified%2Csex");
}
