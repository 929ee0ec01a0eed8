//! The error taxonomy, the permission bitmask and its wire form, and
//! the response envelope.

use vkrs::api::{needs_reauthorization, ApiError, ApiResponse, Attachment, AttachmentKind, Collection, Error, ErrorCode, FullId, SortOrder};
use vkrs::auth::{Permission, Permissions, ParseError, ALL_FLAGS_MASK};
use vkrs::json::{DecodeError, FromJson, Json};

fn obj(entries: Vec<(&str, Json)>) -> Json {
    Json::Obj(
        entries
            .into_iter()
            .map(|(k, v)| (k.to_owned(), v))
            .collect(),
    )
}

fn s(text: &str) -> Json {
    Json::Str(text.to_owned())
}

#[test]
fn named_codes_round_trip() {
    for code in [
        1u32, 2, 5, 10, 11, 12, 13, 15, 18, 19, 20, 21, 22, 100, 114, 118, 121, 122, 123, 129,
        148, 204, 210, 214, 219, 220, 221, 222, 270, 301, 302, 800, 801,
    ] {
        assert_eq!(ErrorCode::from_code(code).to_code(), code);
    }
}

#[test]
fn unauthorized_is_code_five() {
    assert_eq!(ErrorCode::from_code(5), ErrorCode::Unauthorized);
    assert_eq!(ErrorCode::Unauthorized.to_code(), 5);
}

#[test]
fn unnamed_application_code_rides_through_app() {
    assert_eq!(ErrorCode::from_code(150), ErrorCode::App(150));
    assert_eq!(ErrorCode::App(150).to_code(), 150);
}

#[test]
fn unnamed_code_outside_app_range_rides_through_unknown() {
    assert_eq!(ErrorCode::from_code(9001), ErrorCode::Unknown(9001));
    assert_eq!(ErrorCode::Unknown(9001).to_code(), 9001);
}

#[test]
fn descriptions_are_static_text() {
    assert_eq!(ErrorCode::Unauthorized.description(), "unauthorized");
    assert_eq!(ErrorCode::General.description(), "general error");
}

#[test]
fn from_flags_of_nothing_is_the_empty_set_with_empty_wire() {
    let p = Permissions::from_flags(&[]);
    assert_eq!(p.raw_mask(), 0);
    assert_eq!(p.to_wire(), "");
}

#[test]
fn wire_round_trip_for_a_subset() {
    let p = Permissions::from_flags(&[Permission::Audio, Permission::Friends]);
    let wire = p.to_wire();
    assert_eq!(wire, "friends,audio");
    let back = Permissions::from_wire(&wire).unwrap();
    assert_eq!(back, p);
}

#[test]
fn wire_round_trip_for_every_single_flag() {
    for p in Permission::variants() {
        let one = Permissions::from_flags(&[p]);
        assert_eq!(Permissions::from_wire(&one.to_wire()).unwrap(), one);
    }
}

#[test]
fn wire_round_trip_for_the_full_table() {
    let all = Permissions::new(ALL_FLAGS_MASK);
    assert_eq!(Permissions::from_wire(&all.to_wire()).unwrap(), all);
}

#[test]
fn to_wire_orders_by_declaration_not_insertion() {
    let a = Permissions::from_flags(&[Permission::Wall, Permission::Notify]);
    let b = Permissions::from_flags(&[Permission::Notify, Permission::Wall]);
    assert_eq!(a.to_wire(), "notify,wall");
    assert_eq!(a.to_wire(), b.to_wire());
}

#[test]
fn from_wire_trims_each_token() {
    let p = Permissions::from_wire(" audio ,\tvideo ").unwrap();
    assert_eq!(p, Permissions::from_flags(&[Permission::Audio, Permission::Video]));
}

#[test]
fn from_wire_fails_fast_on_an_unknown_token() {
    assert_eq!(
        Permissions::from_wire("audio,bogus,video"),
        Err(ParseError::UnknownFlag)
    );
}

#[test]
fn from_wire_rejects_the_empty_string() {
    assert!(Permissions::from_wire("").is_err());
}

#[test]
fn construction_masks_out_unknown_bits() {
    let p = Permissions::new(0xffff_ffff);
    assert_eq!(p.raw_mask(), ALL_FLAGS_MASK);
    assert_eq!(Permissions::new(0x200).raw_mask(), 0);
}

#[test]
fn union_is_bitwise_or() {
    let a = Permissions::from_flags(&[Permission::Audio]);
    let b = Permissions::from_flags(&[Permission::Video]);
    assert_eq!(
        a.union(b),
        Permissions::from_flags(&[Permission::Audio, Permission::Video])
    );
}

#[test]
fn flag_table_and_names() {
    assert_eq!(Permission::variants().len(), 22);
    assert_eq!(Permission::mask_all(), ALL_FLAGS_MASK);
    assert_eq!(Permission::Audio.to_str(), "audio");
    assert_eq!(Permission::Audio.mask(), 8);
    assert_eq!(Permission::NoHttps.mask(), 0x8000_0000);
    assert_eq!(Permission::from_str("wall"), Ok(Permission::Wall));
    assert!(Permission::from_str("walls").is_err());
}

#[test]
fn contains_and_to_flags() {
    let p = Permissions::from_flags(&[Permission::Docs, Permission::Notify]);
    assert!(p.contains(Permission::Docs));
    assert!(!p.contains(Permission::Wall));
    assert_eq!(p.to_flags(), vec![Permission::Notify, Permission::Docs]);
}

#[test]
fn envelope_success_payload_decodes() {
    let body = obj(vec![("response", Json::UInt(42))]);
    match ApiResponse::<u32>::decode(&body) {
        Ok(ApiResponse::Response(v)) => assert_eq!(v, 42),
        other => panic!("expected success payload, got {:?}", other),
    }
}

#[test]
fn envelope_error_decodes_with_taxonomy() {
    let err = obj(vec![
        ("error_code", Json::UInt(5)),
        ("error_msg", s("access denied")),
        ("request_params", Json::Arr(vec![])),
    ]);
    let body = obj(vec![("error", err)]);
    match ApiResponse::<u32>::decode(&body) {
        Ok(ApiResponse::Error(e)) => {
            assert_eq!(e.error_code, ErrorCode::Unauthorized);
            assert_eq!(e.error_code.to_code(), 5);
            assert_eq!(e.error_msg, "access denied");
            assert!(e.request_params.is_empty());
        }
        other => panic!("expected error branch, got {:?}", other),
    }
}

#[test]
fn envelope_error_keeps_request_params() {
    let params = Json::Arr(vec![obj(vec![("key", s("v")), ("value", s("5.44"))])]);
    let err = obj(vec![
        ("error_code", Json::UInt(100)),
        ("error_msg", s("missing")),
        ("request_params", params),
    ]);
    let body = obj(vec![("error", err)]);
    match ApiResponse::<u32>::decode(&body) {
        Ok(ApiResponse::Error(e)) => {
            assert_eq!(e.error_code, ErrorCode::RequiredParameterMissing);
            assert_eq!(e.request_params.len(), 1);
            assert_eq!(e.request_params[0].key, "v");
            assert_eq!(e.request_params[0].value, "5.44");
        }
        other => panic!("expected error branch, got {:?}", other),
    }
}

#[test]
fn envelope_with_neither_key_is_missing_field() {
    let body = obj(vec![]);
    assert_eq!(
        ApiResponse::<u32>::decode(&body),
        Err(DecodeError::MissingField)
    );
}

#[test]
fn envelope_payload_of_wrong_shape_is_type_mismatch() {
    let body = obj(vec![("response", s("not-a-number"))]);
    assert_eq!(
        ApiResponse::<u32>::decode(&body),
        Err(DecodeError::TypeMismatch)
    );
}

#[test]
fn envelope_with_both_keys_is_type_mismatch() {
    let err = obj(vec![
        ("error_code", Json::UInt(1)),
        ("error_msg", s("x")),
        ("request_params", Json::Arr(vec![])),
    ]);
    let body = obj(vec![("response", Json::UInt(1)), ("error", err)]);
    assert_eq!(
        ApiResponse::<u32>::decode(&body),
        Err(DecodeError::TypeMismatch)
    );
}

#[test]
fn envelope_on_a_non_object_is_type_mismatch() {
    assert_eq!(
        ApiResponse::<u32>::decode(&Json::UInt(3)),
        Err(DecodeError::TypeMismatch)
    );
}

#[test]
fn envelope_into_result_splits_the_branches() {
    let ok: ApiResponse<u32> = ApiResponse::Response(7);
    assert_eq!(ok.into_result(), Ok(7));
}

#[test]
fn collection_decodes_count_and_items() {
    let body = obj(vec![
        ("count", Json::UInt(2)),
        ("items", Json::Arr(vec![Json::UInt(10), Json::UInt(20)])),
    ]);
    let c = <Collection<u64> as FromJson>::from_json(&body).unwrap();
    assert_eq!(c.count, 2);
    assert_eq!(c.items, vec![10, 20]);
}

#[test]
fn collection_with_bad_item_is_type_mismatch() {
    let body = obj(vec![
        ("count", Json::UInt(1)),
        ("items", Json::Arr(vec![s("nope")])),
    ]);
    assert_eq!(
        <Collection<u64> as FromJson>::from_json(&body),
        Err(DecodeError::TypeMismatch)
    );
}

#[test]
fn payload_number_too_big_for_u32_is_type_mismatch() {
    let body = obj(vec![("response", Json::UInt(0x1_0000_0000))]);
    assert_eq!(
        ApiResponse::<u32>::decode(&body),
        Err(DecodeError::TypeMismatch)
    );
}

#[test]
fn duplicate_keys_resolve_to_the_first() {
    let body = obj(vec![
        ("response", Json::UInt(1)),
        ("response", Json::UInt(2)),
    ]);
    match ApiResponse::<u32>::decode(&body) {
        Ok(ApiResponse::Response(v)) => assert_eq!(v, 1),
        other => panic!("expected success payload, got {:?}", other),
    }
}

#[test]
fn full_id_renders_owner_and_id() {
    assert_eq!(FullId(-10, 5).render(), "-10_5");
    assert_eq!(FullId::from((7, 8)).render(), "7_8");
    assert_eq!(FullId(3, 4).pair(), (3, 4));
}

#[test]
fn attachment_renders_kind_and_ids() {
    let a = Attachment {
        kind: AttachmentKind::Photo,
        owner_id: 10,
        media_id: 20,
    };
    assert_eq!(a.render(), "photo10_20");
    assert_eq!(AttachmentKind::from_str("doc"), Ok(AttachmentKind::Document));
    assert!(AttachmentKind::from_str("gif").is_err());
}

#[test]
fn sort_order_words() {
    assert_eq!(SortOrder::Asc.as_str(), "asc");
    assert_eq!(SortOrder::from_str("desc"), Ok(SortOrder::Desc));
    assert!(SortOrder::from_str("sideways").is_err());
    assert_eq!(SortOrder::default(), SortOrder::Asc);
}

#[test]
fn api_error_message_joins_description_and_server_text() {
    let err = obj(vec![
        ("error_code", Json::UInt(5)),
        ("error_msg", s("access denied")),
        ("request_params", Json::Arr(vec![])),
    ]);
    let body = obj(vec![("error", err)]);
    match ApiResponse::<u32>::decode(&body) {
        Ok(ApiResponse::Error(e)) => {
            assert_eq!(e.message(), "unauthorized: access denied");
        }
        other => panic!("expected error branch, got {:?}", other),
    }
}

#[test]
fn only_unauthorized_asks_for_reauthorization() {
    let unauthorized = Error::Api(ApiError {
        error_code: ErrorCode::Unauthorized,
        error_msg: "no".to_owned(),
        request_params: vec![],
    });
    assert!(needs_reauthorization(&unauthorized));
    let other = Error::Api(ApiError {
        error_code: ErrorCode::Banned,
        error_msg: "no".to_owned(),
        request_params: vec![],
    });
    assert!(!needs_reauthorization(&other));
    assert!(!needs_reauthorization(&Error::Decode(DecodeError::MissingField)));
    assert!(!needs_reauthorization(&Error::Transport("down".to_owned())));
}

#[test]
fn reduce_response_keeps_the_three_outcomes_apart() {
    let ok: Result<ApiResponse<u32>, DecodeError> = Ok(ApiResponse::Response(5));
    assert_eq!(vkrs::api::reduce_response(ok), Ok(5));

    let api_err = ApiError {
        error_code: ErrorCode::Banned,
        error_msg: "gone".to_owned(),
        request_params: vec![],
    };
    let failed: Result<ApiResponse<u32>, DecodeError> = Ok(ApiResponse::Error(api_err.clone()));
    assert_eq!(vkrs::api::reduce_response(failed), Err(Error::Api(api_err)));

    let undecodable: Result<ApiResponse<u32>, DecodeError> = Err(DecodeError::MissingField);
    assert_eq!(
        vkrs::api::reduce_response(undecodable),
        Err(Error::Decode(DecodeError::MissingField))
    );
}

#[test]
fn rendered_kinds_keep_the_numeric_code() {
    assert_eq!(ErrorCode::App(150).render(), "application error #150");
    assert_eq!(ErrorCode::Unknown(9001).render(), "unknown error #9001");
    assert_eq!(ErrorCode::Unknown(0).render(), "unknown error #0");
    assert_eq!(ErrorCode::Unauthorized.render(), "unauthorized");
    assert_eq!(ErrorCode::Banned.render(), "banned or deleted");
}

#[test]
fn api_error_message_keeps_the_vendor_code() {
    let e = ApiError {
        error_code: ErrorCode::from_code(150),
        error_msg: "try later".to_owned(),
        request_params: vec![],
    };
    assert_eq!(e.message(), "application error #150: try later");
}
