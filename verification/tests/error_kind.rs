use matrix::error::{
    DeError, Duration, ErrCode, ErrorBody, ErrorKind, ErrorKindVisitor, Extra, Field, FieldName,
    IntoHttpError, PrivOwnedStr, ResponsePayload, RoomVersionId, SerError, StandardErrorBody,
    StatusCode,
};
use matrix::error::Error as MatrixError;
use matrix::json::{JsonNumber, JsonValue};

fn s(v: &str) -> JsonValue {
    JsonValue::String(v.to_owned())
}

fn entries(list: Vec<(&str, JsonValue)>) -> Vec<(String, JsonValue)> {
    list.into_iter().map(|(k, v)| (k.to_owned(), v)).collect()
}

#[test]
fn as_ref_gives_errcodes() {
    assert_eq!(ErrorKind::Forbidden.as_ref(), "M_FORBIDDEN");
    assert_eq!(ErrorKind::UnknownToken { soft_logout: true }.as_ref(), "M_UNKNOWN_TOKEN");
    assert_eq!(ErrorKind::UnableToAuthorizeJoin.as_ref(), "M_UNABLE_TO_AUTHORISE_JOIN");
    assert_eq!(ErrorKind::WrongRoomKeysVersion { current_version: None }.as_ref(), "M_WRONG_ROOM_KEYS_VERSION");
    let custom = ErrorKind::_Custom { errcode: PrivOwnedStr::new("ORG_X".to_owned()), extra: Extra::new() };
    assert_eq!(custom.as_ref(), "ORG_X");
}

#[test]
fn errcode_parses_names_and_aliases() {
    assert!(matches!(ErrCode::parse("M_FORBIDDEN".to_owned()), ErrCode::Forbidden));
    assert!(matches!(ErrCode::parse("M_BAD_STATUS".to_owned()), ErrCode::BadStatus));
    assert!(matches!(
        ErrCode::parse("FI.MAU.MSC2246_NOT_YET_UPLOADED".to_owned()),
        ErrCode::NotYetUploaded
    ));
    assert!(matches!(
        ErrCode::parse("M_UNABLE_TO_AUTHORIZE_JOIN".to_owned()),
        ErrCode::UnableToAuthorizeJoin
    ));
    match ErrCode::parse("M_UNABLE_TO_AUTHORISE_JOIN".to_owned()) {
        ErrCode::_Custom(p) => assert_eq!(p.as_str(), "M_UNABLE_TO_AUTHORISE_JOIN"),
        other => panic!("unexpected {:?}", other),
    }
}

#[test]
fn field_new_classifies_keys() {
    assert_eq!(Field::new("errcode".to_owned()), Field::ErrCode);
    assert_eq!(Field::new("retry_after_ms".to_owned()), Field::RetryAfterMs);
    assert_eq!(Field::new("current_version".to_owned()), Field::CurrentVersion);
    assert_eq!(Field::new("other".to_owned()), Field::Other("other".to_owned()));
}

#[test]
fn reads_unit_kind() {
    let k = ErrorKindVisitor::visit_map(entries(vec![("errcode", s("M_NOT_FOUND")), ("error", s("x"))]));
    assert_eq!(k, Ok(ErrorKind::NotFound));
}

#[test]
fn reads_unknown_token() {
    let k = ErrorKindVisitor::visit_map(entries(vec![
        ("soft_logout", JsonValue::Bool(true)),
        ("errcode", s("M_UNKNOWN_TOKEN")),
    ]));
    assert_eq!(k, Ok(ErrorKind::UnknownToken { soft_logout: true }));
    let k = ErrorKindVisitor::visit_map(entries(vec![("errcode", s("M_UNKNOWN_TOKEN"))]));
    assert_eq!(k, Ok(ErrorKind::UnknownToken { soft_logout: false }));
    let k = ErrorKindVisitor::visit_map(entries(vec![
        ("errcode", s("M_UNKNOWN_TOKEN")),
        ("soft_logout", s("yes")),
    ]));
    assert_eq!(k, Err(DeError::InvalidValue(FieldName::SoftLogout)));
}

#[test]
fn reads_limit_exceeded() {
    let k = ErrorKindVisitor::visit_map(entries(vec![
        ("errcode", s("M_LIMIT_EXCEEDED")),
        ("retry_after_ms", JsonValue::Number(JsonNumber::PosInt(1500))),
    ]));
    match k {
        Ok(ErrorKind::LimitExceeded { retry_after_ms: Some(d) }) => {
            assert_eq!(d.as_secs(), 1);
            assert_eq!(d.subsec_nanos(), 500_000_000);
            assert_eq!(d.as_millis(), 1500);
        }
        other => panic!("unexpected {:?}", other),
    }
    let k = ErrorKindVisitor::visit_map(entries(vec![
        ("errcode", s("M_LIMIT_EXCEEDED")),
        ("retry_after_ms", JsonValue::Number(JsonNumber::NegInt(-1))),
    ]));
    assert_eq!(k, Err(DeError::InvalidValue(FieldName::RetryAfterMs)));
}

#[test]
fn reads_incompatible_room_version() {
    let k = ErrorKindVisitor::visit_map(entries(vec![
        ("errcode", s("M_INCOMPATIBLE_ROOM_VERSION")),
        ("room_version", s("10")),
    ]));
    assert_eq!(k, Ok(ErrorKind::IncompatibleRoomVersion { room_version: RoomVersionId::parse("10".to_owned()).unwrap() }));
    let k = ErrorKindVisitor::visit_map(entries(vec![
        ("errcode", s("M_INCOMPATIBLE_ROOM_VERSION")),
        ("room_version", s("org.example-1")),
    ]));
    assert_eq!(k, Ok(ErrorKind::IncompatibleRoomVersion { room_version: RoomVersionId::parse("org.example-1".to_owned()).unwrap() }));
    let k = ErrorKindVisitor::visit_map(entries(vec![
        ("errcode", s("M_INCOMPATIBLE_ROOM_VERSION")),
        ("room_version", s("bad version!")),
    ]));
    assert_eq!(k, Err(DeError::InvalidValue(FieldName::RoomVersion)));
    let k = ErrorKindVisitor::visit_map(entries(vec![("errcode", s("M_INCOMPATIBLE_ROOM_VERSION"))]));
    assert_eq!(k, Err(DeError::MissingField(FieldName::RoomVersion)));
}

#[test]
fn reads_bad_status() {
    let k = ErrorKindVisitor::visit_map(entries(vec![
        ("errcode", s("M_BAD_STATUS")),
        ("status", JsonValue::Number(JsonNumber::PosInt(502))),
        ("body", s("gateway")),
    ]));
    assert_eq!(k, Ok(ErrorKind::BadStatus { status: StatusCode::from_u16(502), body: Some("gateway".to_owned()) }));
    let k = ErrorKindVisitor::visit_map(entries(vec![
        ("errcode", s("M_BAD_STATUS")),
        ("status", JsonValue::Number(JsonNumber::PosInt(99))),
    ]));
    assert_eq!(k, Err(DeError::InvalidValue(FieldName::Status)));
}

#[test]
fn reads_wrong_room_keys_version() {
    let k = ErrorKindVisitor::visit_map(entries(vec![
        ("errcode", s("M_WRONG_ROOM_KEYS_VERSION")),
        ("current_version", JsonValue::Null),
    ]));
    assert_eq!(k, Ok(ErrorKind::WrongRoomKeysVersion { current_version: None }));
    let k = ErrorKindVisitor::visit_map(entries(vec![("errcode", s("M_WRONG_ROOM_KEYS_VERSION"))]));
    assert_eq!(k, Err(DeError::MissingField(FieldName::CurrentVersion)));
}

#[test]
fn reads_resource_limit_exceeded() {
    let k = ErrorKindVisitor::visit_map(entries(vec![
        ("errcode", s("M_RESOURCE_LIMIT_EXCEEDED")),
        ("admin_contact", s("mailto:admin@example.org")),
    ]));
    assert_eq!(
        k,
        Ok(ErrorKind::ResourceLimitExceeded { admin_contact: "mailto:admin@example.org".to_owned() })
    );
}

#[test]
fn reads_custom_kind_with_extra_fields_in_key_order() {
    let k = ErrorKindVisitor::visit_map(entries(vec![
        ("errcode", s("ORG_EXAMPLE")),
        ("zeta", JsonValue::Number(JsonNumber::PosInt(1))),
        ("alpha", s("a")),
    ]))
    .unwrap();
    match &k {
        ErrorKind::_Custom { errcode, extra } => {
            assert_eq!(errcode.as_str(), "ORG_EXAMPLE");
            assert_eq!(extra.len(), 2);
            assert_eq!(extra.get(0).0, "alpha");
            assert_eq!(extra.get(1).0, "zeta");
        }
        other => panic!("unexpected {:?}", other),
    }
}

#[test]
fn skips_fields_of_other_kinds() {
    let k = ErrorKindVisitor::visit_map(entries(vec![
        ("errcode", s("M_FORBIDDEN")),
        ("soft_logout", s("ignored")),
        ("soft_logout", s("ignored twice")),
    ]));
    assert_eq!(k, Ok(ErrorKind::Forbidden));
}

#[test]
fn refuses_duplicates_and_missing_code() {
    let k = ErrorKindVisitor::visit_map(entries(vec![("errcode", s("M_FORBIDDEN")), ("errcode", s("M_FORBIDDEN"))]));
    assert_eq!(k, Err(DeError::DuplicateField(FieldName::ErrCode)));
    let k = ErrorKindVisitor::visit_map(entries(vec![
        ("soft_logout", JsonValue::Bool(true)),
        ("soft_logout", JsonValue::Bool(false)),
        ("errcode", s("M_UNKNOWN_TOKEN")),
    ]));
    assert_eq!(k, Err(DeError::DuplicateField(FieldName::SoftLogout)));
    let k = ErrorKindVisitor::visit_map(entries(vec![("a", s("1")), ("a", s("2"))]));
    assert_eq!(k, Err(DeError::DuplicateExtraField("a".to_owned())));
    let k = ErrorKindVisitor::visit_map(entries(vec![("error", s("no code"))]));
    assert_eq!(k, Err(DeError::MissingField(FieldName::ErrCode)));
    let k = ErrorKindVisitor::visit_map(entries(vec![("errcode", JsonValue::Bool(true))]));
    assert_eq!(k, Err(DeError::InvalidValue(FieldName::ErrCode)));
}

#[test]
fn serializes_kinds() {
    let f = ErrorKind::UnknownToken { soft_logout: true }.serialize().unwrap();
    assert_eq!(f, entries(vec![("errcode", s("M_UNKNOWN_TOKEN")), ("soft_logout", JsonValue::Bool(true))]));
    let f = ErrorKind::UnknownToken { soft_logout: false }.serialize().unwrap();
    assert_eq!(f, entries(vec![("errcode", s("M_UNKNOWN_TOKEN"))]));
    let f = ErrorKind::LimitExceeded { retry_after_ms: Some(Duration::from_millis(2000)) }.serialize().unwrap();
    assert_eq!(
        f,
        entries(vec![("errcode", s("M_LIMIT_EXCEEDED")), ("retry_after_ms", JsonValue::Number(JsonNumber::PosInt(2000)))])
    );
    let big = Duration::new(u64::MAX, 0);
    assert_eq!(
        ErrorKind::LimitExceeded { retry_after_ms: Some(big) }.serialize(),
        Err(SerError::RetryAfterOutOfRange)
    );
    let f = ErrorKind::BadStatus { status: StatusCode::from_u16(500), body: None }.serialize().unwrap();
    assert_eq!(f, entries(vec![("errcode", s("M_BAD_STATUS"))]));
}

#[test]
fn round_trips_custom_kind() {
    let k = ErrorKindVisitor::visit_map(entries(vec![("errcode", s("ORG_X")), ("b", s("2")), ("a", s("1"))])).unwrap();
    let f = k.serialize().unwrap();
    assert_eq!(f, entries(vec![("errcode", s("ORG_X")), ("a", s("1")), ("b", s("2"))]));
    assert_eq!(ErrorKindVisitor::visit_map(f), Ok(k));
}

#[test]
fn round_trip_changes_unable_to_authorize_join() {
    let f = ErrorKind::UnableToAuthorizeJoin.serialize().unwrap();
    match ErrorKindVisitor::visit_map(f).unwrap() {
        ErrorKind::_Custom { errcode, .. } => assert_eq!(errcode.as_str(), "M_UNABLE_TO_AUTHORISE_JOIN"),
        other => panic!("unexpected {:?}", other),
    }
}

#[test]
fn duration_conversions() {
    let d = Duration::new(3, 2_500_000_000);
    assert_eq!(d.as_secs(), 5);
    assert_eq!(d.subsec_nanos(), 500_000_000);
    assert_eq!(d.as_millis(), 5500);
    assert_eq!(Duration::from_millis(42).as_millis(), 42);
}

#[test]
fn error_display_and_kind() {
    let e = ErrorBody::Standard { kind: ErrorKind::Forbidden, message: "no".to_owned() }.into_error(403);
    assert_eq!(e.fmt(), "[403 / M_FORBIDDEN] no");
    assert!(matches!(e.error_kind(), Some(ErrorKind::Forbidden)));
    let e = ErrorBody::Json("{\"a\":1}".to_owned()).into_error(500);
    assert_eq!(e.fmt(), "[500] {\"a\":1}");
    assert!(e.error_kind().is_none());
    let e = ErrorBody::NotJson { bytes: vec![1, 2], deserialization_error: "eof".to_owned() }.into_error(502);
    assert_eq!(e.fmt(), "[502] <non-json bytes>");
}

#[test]
fn body_from_parsed_prefers_standard() {
    let b = ErrorBody::from_parsed(
        Some(StandardErrorBody { kind: ErrorKind::NotFound, message: "gone".to_owned() }),
        Ok("{}".to_owned()),
        vec![],
    );
    assert!(matches!(b, ErrorBody::Standard { kind: ErrorKind::NotFound, .. }));
    let b = ErrorBody::from_parsed(None, Ok("[1]".to_owned()), vec![]);
    assert!(matches!(b, ErrorBody::Json(ref t) if t == "[1]"));
    let b = ErrorBody::from_parsed(None, Err("bad".to_owned()), vec![7]);
    assert!(matches!(b, ErrorBody::NotJson { ref bytes, .. } if bytes == &vec![7u8]));
}

#[test]
fn error_into_response() {
    let e = MatrixError {
        status_code: 429,
        body: ErrorBody::Standard {
            kind: ErrorKind::LimitExceeded { retry_after_ms: Some(Duration::from_millis(10)) },
            message: "slow down".to_owned(),
        },
    };
    let r = e.try_into_http_response().unwrap();
    assert_eq!(r.status_code, 429);
    assert_eq!(r.content_type, "application/json");
    match r.payload {
        ResponsePayload::Fields(f) => assert_eq!(
            f,
            entries(vec![
                ("errcode", s("M_LIMIT_EXCEEDED")),
                ("retry_after_ms", JsonValue::Number(JsonNumber::PosInt(10))),
                ("error", s("slow down")),
            ])
        ),
        other => panic!("unexpected {:?}", other),
    }
    let e = MatrixError { status_code: 500, body: ErrorBody::NotJson { bytes: vec![], deserialization_error: String::new() } };
    assert!(matches!(e.try_into_http_response(), Err(IntoHttpError::NotJson)));
}

#[test]
fn extra_refuses_known_fields_and_duplicates() {
    let mut extra = Extra::new();
    assert_eq!(extra.insert("errcode".to_owned(), s("M_X")), Err("errcode".to_owned()));
    assert_eq!(extra.insert("retry_after_ms".to_owned(), JsonValue::Null), Err("retry_after_ms".to_owned()));
    assert_eq!(extra.len(), 0);
    assert_eq!(extra.insert("b".to_owned(), s("2")), Ok(()));
    assert_eq!(extra.insert("a".to_owned(), s("1")), Ok(()));
    assert_eq!(extra.insert("a".to_owned(), s("3")), Err("a".to_owned()));
    assert_eq!(extra.len(), 2);
    assert_eq!(extra.get(0).0, "a");
    assert!(extra.keys_sorted());
}

#[test]
fn room_versions_and_status_codes_are_checked() {
    assert!(RoomVersionId::parse("11".to_owned()).is_some());
    assert_eq!(RoomVersionId::parse("org.example-2".to_owned()).unwrap().as_str(), "org.example-2");
    assert!(RoomVersionId::parse("bad version!".to_owned()).is_none());
    assert!(RoomVersionId::parse(String::new()).is_none());
    assert!(RoomVersionId::parse("a".repeat(33)).is_none());
    assert_eq!(StatusCode::from_u16(404).unwrap().as_u16(), 404);
    assert!(StatusCode::from_u16(99).is_none());
    assert!(StatusCode::from_u16(1000).is_none());
}

#[test]
fn order_of_entries_does_not_matter() {
    let a = entries(vec![
        ("retry_after_ms", JsonValue::Number(JsonNumber::PosInt(5))),
        ("errcode", s("M_LIMIT_EXCEEDED")),
        ("x", s("1")),
    ]);
    let b = entries(vec![
        ("x", s("1")),
        ("errcode", s("M_LIMIT_EXCEEDED")),
        ("retry_after_ms", JsonValue::Number(JsonNumber::PosInt(5))),
    ]);
    assert_eq!(ErrorKindVisitor::visit_map(a), ErrorKindVisitor::visit_map(b));
    let c = entries(vec![("b", s("2")), ("errcode", s("ORG_X")), ("a", s("1"))]);
    let d = entries(vec![("errcode", s("ORG_X")), ("a", s("1")), ("b", s("2"))]);
    assert_eq!(ErrorKindVisitor::visit_map(c), ErrorKindVisitor::visit_map(d));
}

#[test]
fn standard_response_reads_back() {
    let kind = ErrorKind::IncompatibleRoomVersion { room_version: RoomVersionId::parse("9".to_owned()).unwrap() };
    let e = MatrixError { status_code: 400, body: ErrorBody::Standard { kind, message: "old".to_owned() } };
    let r = e.try_into_http_response().unwrap();
    assert_eq!(r.status_code, 400);
    let mut fields = match r.payload {
        ResponsePayload::Fields(f) => f,
        other => panic!("unexpected {:?}", other),
    };
    assert_eq!(fields.pop(), Some(("error".to_owned(), s("old"))));
    assert_eq!(
        ErrorKindVisitor::visit_map(fields),
        Ok(ErrorKind::IncompatibleRoomVersion { room_version: RoomVersionId::parse("9".to_owned()).unwrap() })
    );
}

#[test]
fn listed_codes_are_distinct() {
    let a = ErrorKind::UnknownToken { soft_logout: true };
    let b = ErrorKind::UnknownToken { soft_logout: false };
    assert_eq!(a.as_ref(), b.as_ref());
    assert_ne!(ErrorKind::Forbidden.as_ref(), ErrorKind::NotFound.as_ref());
    assert!(ErrorKind::UnableToAuthorizeJoin.as_ref().starts_with("M_"));
}
