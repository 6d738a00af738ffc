use genorm::Member;
use genorm::ObjectType;
use genorm::SchemaError;

fn member(name: &str, kind: &str, allow_null: Option<bool>, index: Option<bool>) -> Member {
    Member {
        name: String::from(name),
        description: None,
        type_: String::from(kind),
        allow_null,
        index,
    }
}

fn object_type(name: &str, members: Vec<Member>) -> ObjectType {
    ObjectType { name: String::from(name), description: None, members }
}

#[test]
fn empty_members_rejected() {
    let t = object_type("Empty", vec![]);
    let err = t.validate().unwrap_err();
    match err {
        SchemaError::EmptyMembers { owner_name } => assert_eq!(owner_name, "Empty"),
        other => panic!("unexpected error: {:?}", other),
    }
}

#[test]
fn empty_name_rejected() {
    let t = object_type("T", vec![member("", "INT32", None, None)]);
    let err = t.validate().unwrap_err();
    assert!(matches!(err, SchemaError::EmptyName));
}

#[test]
fn empty_name_checked_before_kind() {
    let m = member("", "NOT_A_KIND", None, None);
    assert!(matches!(m.validate().unwrap_err(), SchemaError::EmptyName));
}

#[test]
fn unknown_kind_rejected() {
    let t = object_type("T", vec![member("a", "FLOAT", None, None)]);
    let err = t.validate().unwrap_err();
    match err {
        SchemaError::UnknownKind { kind } => assert_eq!(kind, "FLOAT"),
        other => panic!("unexpected error: {:?}", other),
    }
}

#[test]
fn bytearray_nullable_rejected() {
    let t = object_type("T", vec![member("blob", "BYTEARRAY", Some(true), None)]);
    let err = t.validate().unwrap_err();
    assert!(matches!(err, SchemaError::InvalidNullability));
}

#[test]
fn bytearray_indexed_rejected() {
    let t = object_type("T", vec![member("blob", "BYTEARRAY", None, Some(true))]);
    let err = t.validate().unwrap_err();
    assert!(matches!(err, SchemaError::InvalidIndex));
}

#[test]
fn bytearray_nullability_checked_before_index() {
    let m = member("blob", "BYTEARRAY", Some(true), Some(true));
    assert!(matches!(m.validate().unwrap_err(), SchemaError::InvalidNullability));
}

#[test]
fn valid_members_accepted() {
    let t = object_type(
        "T",
        vec![
            member("a", "INT32", None, None),
            member("b", "INT64", Some(true), Some(true)),
            member("c", "BYTEARRAY", Some(false), Some(false)),
        ],
    );
    assert!(t.validate().is_ok());
}

#[test]
fn first_defective_member_reported() {
    let t = object_type(
        "T",
        vec![
            member("ok", "INT64", None, None),
            member("bad", "WAT", None, None),
            member("", "INT32", None, None),
        ],
    );
    match t.validate().unwrap_err() {
        SchemaError::UnknownKind { kind } => assert_eq!(kind, "WAT"),
        other => panic!("unexpected error: {:?}", other),
    }
}

#[test]
fn error_messages() {
    let e = SchemaError::EmptyMembers { owner_name: String::from("User") };
    assert_eq!(e.message(), "Object type has no members: User");
    assert_eq!(SchemaError::EmptyName.message(), "Member name is empty");
    let e = SchemaError::UnknownKind { kind: String::from("FLOAT") };
    assert_eq!(e.message(), "Unexpected type: FLOAT");
    assert_eq!(SchemaError::InvalidNullability.message(), "Bytearray cannot be null");
    assert_eq!(SchemaError::InvalidIndex.message(), "Bytearray cannot be an index");
}

#[test]
fn flags_default_to_false() {
    let m = member("a", "INT32", None, None);
    assert!(!m.is_allow_null());
    assert!(!m.is_index());
    let m = member("a", "INT32", Some(false), Some(false));
    assert!(!m.is_allow_null());
    assert!(!m.is_index());
    let m = member("a", "INT32", Some(true), Some(true));
    assert!(m.is_allow_null());
    assert!(m.is_index());
}

#[test]
fn supported_version() {
    assert!(genorm::schema::is_supported_version(1));
    assert!(!genorm::schema::is_supported_version(0));
    assert!(!genorm::schema::is_supported_version(2));
}
