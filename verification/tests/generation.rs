use genorm::CxxOptions;
use genorm::Member;
use genorm::ObjectType;
use genorm::generate;
use genorm::generate_header;
use genorm::generate_source;

fn member(name: &str, kind: &str, allow_null: Option<bool>, index: Option<bool>) -> Member {
    Member {
        name: String::from(name),
        description: None,
        type_: String::from(kind),
        allow_null,
        index,
    }
}

fn object_type(name: &str, members: Vec<Member>) -> ObjectType {
    ObjectType { name: String::from(name), description: None, members }
}

fn options(prefix: &str, namespace: &str) -> CxxOptions {
    CxxOptions {
        file_prefix: String::from(prefix),
        namespace: String::from(namespace),
        output_dir_root: None,
        output_dir: None,
    }
}

fn point_schema() -> Vec<ObjectType> {
    vec![object_type(
        "Point",
        vec![member("x", "INT32", None, None), member("y", "INT32", Some(false), Some(true))],
    )]
}

const POINT_HEADER: &str = "// Auto-generated file. Changes will be overridden.\n\
#pragma once\n\
#include <genORM/genORM.h>\n\
#include <vector>\n\
#include <string>\n\
#include <optional>\n\
\n\
namespace myns {\n\
\x20   class Point final : public genORM::object {\n\
\x20       int32_t _x;\n\
\x20       int32_t _y;\n\
\n\
\x20       explicit Point(genORM::database& __db, uint64_t __id, int32_t x, int32_t y);\n\
\n\
\x20   public:\n\
\x20       static std::expected<Point, std::string> create(genORM::database& __db, int32_t x, int32_t y);\n\
\x20       static std::expected<Point, std::string> find_by_rowid(genORM::database& __db, uint64_t);\n\
\x20       static std::optional<Point> find_first_by_y(int32_t y);\n\
\x20       static std::vector<Point> find_all_by_y(int32_t y);\n\
\n\
\x20       [[nodiscard]] int32_t get_x() const { return _x; }\n\
\x20       [[nodiscard]] int32_t get_y() const { return _y; }\n\
\n\
\x20       void set_x(int32_t);\n\
\x20       void set_y(int32_t);\n\
\x20   };\n\
\n\
}\n";

const POINT_SOURCE: &str = "// Auto-generated file. Changes will be overridden.\n\
#include \"test.orm.h\"\n\
\n\
myns::Point::Point(genORM::database& __db, uint64_t __id, int32_t x, int32_t y)\n\
\x20   : object(__db, __id), _x(x), _y(y) {}\n\
\n\
std::expected<myns::Point, std::string> myns::Point::create(genORM::database& __db, int32_t x, int32_t y) {\n\
\x20   static constexpr std::string_view create_table_statement = \"CREATE TABLE IF NOT EXISTS Point (__id INTEGER PRIMARY KEY NOT NULL, x INTEGER NOT NULL DEFAULT 0, y INTEGER NOT NULL DEFAULT 0) STRICT;\";\n\
\x20   if (auto create_table_result = create_table_if_not_exists(__db, create_table_statement); not create_table_result) { return std::unexpected{std::move(create_table_result.error())}; }\n\
\x20   {\n\
\x20       static constexpr std::string_view create_index_statement = \"CREATE INDEX IF NOT EXISTS Index_Point_y ON Point(y);\";\n\
\x20       if (auto create_index_result = create_index_if_not_exists(__db, create_index_statement); not create_index_result) { return std::unexpected{std::move(create_index_result.error())}; }\n\
\x20   }\n\
\x20   static constexpr std::string_view insert_statement = \"INSERT INTO Point VALUES (NULL, ?, ?);\";\n\
\x20   const auto binder = [&](int value_index) -> genORM::value_variant {\n\
\x20       if (value_index == 1) { return x; }\n\
\x20       if (value_index == 2) { return y; }\n\
\x20       throw std::logic_error(\"Implementation error\");\n\
\x20   };\n\
\x20   if (auto create_table_result = insert_into_table(__db, insert_statement, 2, binder)) {\n\
\x20       return Point{__db, *create_table_result, x, y};\n\
\x20   } else {\n\
\x20       return std::unexpected{std::move(create_table_result.error())};\n\
\x20   }\n\
}\n\
std::expected<myns::Point, std::string> myns::Point::find_by_rowid(genORM::database& __db, const uint64_t __id) {\n\
\x20   static constexpr std::string_view select_statement = \"SELECT * FROM Point WHERE __id = ?;\";\n\
\x20   if (auto select_result = select_one(__db, select_statement, 1, [=](int) -> genORM::value_variant { return static_cast<int64_t>(__id); },\n\
\x20           std::vector<genORM::value_variant>{{int64_t{}, int32_t{}, int32_t{}}})) {\n\
\x20       return Point{__db, __id,\n\
\x20           std::get<int32_t>((*select_result)[1]),\n\
\x20           std::get<int32_t>((*select_result)[2])\n\
\x20       };\n\
\x20   } else {\n\
\x20       return std::unexpected{std::move(select_result.error())};\n\
\x20   }\n\
}\n\
\n";

#[test]
fn point_end_to_end() {
    let opts = options("test", "myns");
    let arts = generate(String::from("out/"), &opts, &point_schema()).unwrap();
    assert_eq!(arts.header_path, "out/test.orm.h");
    assert_eq!(arts.source_path, "out/test.orm.cc");
    assert_eq!(arts.header_text, POINT_HEADER);
    assert_eq!(arts.source_text, POINT_SOURCE);
}

#[test]
fn generation_is_deterministic() {
    let opts = options("test", "myns");
    let a = generate(String::from(""), &opts, &point_schema()).unwrap();
    let b = generate(String::from(""), &opts, &point_schema()).unwrap();
    assert_eq!(a.header_text, b.header_text);
    assert_eq!(a.source_text, b.source_text);
    assert_eq!(a.header_path, b.header_path);
    assert_eq!(a.source_path, b.source_path);
}

#[test]
fn nullable_integer_column_mapping() {
    let nullable = member("age", "INT64", Some(true), None);
    assert_eq!(nullable.format_database_schema(), "age INTEGER  DEFAULT NULL");
    let required = member("age", "INT64", None, None);
    assert_eq!(required.format_database_schema(), "age INTEGER NOT NULL DEFAULT 0");
    let required32 = member("n", "INT32", Some(false), None);
    assert_eq!(required32.format_database_schema(), "n INTEGER NOT NULL DEFAULT 0");
    let blob = member("payload", "BYTEARRAY", None, None);
    assert_eq!(blob.format_database_schema(), "payload BLOB");
}

#[test]
fn nullable_member_representations() {
    let m = member("age", "INT32", Some(true), None);
    assert_eq!(m.format_declaration(), "        std::optional<int32_t> _age;\n");
    assert_eq!(m.format_constructor_parameter(), "std::optional<int32_t> age");
    assert_eq!(
        m.format_binder_implementation(),
        "age ? genORM::value_variant{*age} : std::monostate{}"
    );
    let m = member("age", "INT32", None, None);
    assert_eq!(m.format_binder_implementation(), "age");
}

#[test]
fn index_fan_out_on_user_email() {
    let schema = vec![object_type(
        "User",
        vec![member("id_card", "INT64", None, None), member("email", "INT64", None, Some(true))],
    )];
    let header = generate_header("myns", &schema).unwrap();
    let first = "        static std::optional<User> find_first_by_email(int64_t email);\n";
    let all = "        static std::vector<User> find_all_by_email(int64_t email);\n";
    assert_eq!(header.matches(first).count(), 1);
    assert_eq!(header.matches(all).count(), 1);
    assert_eq!(header.matches("find_first_by_").count(), 1);
    assert_eq!(header.matches("find_all_by_").count(), 1);
    let source = generate_source("test", "myns", &schema);
    let index_statement = "\"CREATE INDEX IF NOT EXISTS Index_User_email ON User(email);\"";
    assert_eq!(source.matches(index_statement).count(), 1);
    assert_eq!(source.matches("CREATE INDEX").count(), 1);
}

#[test]
fn member_order_permutes_output() {
    let forward = vec![object_type(
        "P",
        vec![member("a", "INT32", None, None), member("b", "INT64", None, None)],
    )];
    let backward = vec![object_type(
        "P",
        vec![member("b", "INT64", None, None), member("a", "INT32", None, None)],
    )];
    let hf = generate_header("ns", &forward).unwrap();
    let hb = generate_header("ns", &backward).unwrap();
    assert!(hf.contains("        int32_t _a;\n        int64_t _b;\n"));
    assert!(hb.contains("        int64_t _b;\n        int32_t _a;\n"));
    assert!(hf.contains("(genORM::database& __db, uint64_t __id, int32_t a, int64_t b)"));
    assert!(hb.contains("(genORM::database& __db, uint64_t __id, int64_t b, int32_t a)"));
    let sf = generate_source("t", "ns", &forward);
    let sb = generate_source("t", "ns", &backward);
    assert!(sf.contains("(__id INTEGER PRIMARY KEY NOT NULL, a INTEGER NOT NULL DEFAULT 0, b INTEGER NOT NULL DEFAULT 0)"));
    assert!(sb.contains("(__id INTEGER PRIMARY KEY NOT NULL, b INTEGER NOT NULL DEFAULT 0, a INTEGER NOT NULL DEFAULT 0)"));
}

#[test]
fn defective_schema_yields_diagnostic_and_no_artifacts() {
    let opts = options("test", "myns");
    let schema = vec![
        object_type("Good", vec![member("a", "INT32", None, None)]),
        object_type("Bad", vec![]),
    ];
    let err = generate(String::from(""), &opts, &schema).unwrap_err();
    assert_eq!(err, "Object type has no members: Bad");
    let schema = vec![object_type("Bad", vec![member("a", "DOUBLE", None, None)])];
    let err = generate(String::from(""), &opts, &schema).unwrap_err();
    assert_eq!(err, "Unexpected type: DOUBLE");
}

#[test]
fn descriptions_are_emitted() {
    let t = ObjectType {
        name: String::from("Doc"),
        description: Some(String::from("a documented type")),
        members: vec![Member {
            name: String::from("v"),
            description: Some(String::from("a documented member")),
            type_: String::from("INT32"),
            allow_null: None,
            index: None,
        }],
    };
    let header = generate_header("ns", &vec![t]).unwrap();
    assert!(header.contains("    /// a documented type\n    class Doc final"));
    assert!(header.contains("        /// a documented member\n        int32_t _v;\n"));
}

#[test]
fn bytearray_fragments() {
    let m = member("payload", "BYTEARRAY", None, None);
    assert_eq!(m.format_declaration(), "        std::vector<uint8_t> _payload;\n");
    assert_eq!(m.format_constructor_parameter(), "std::vector<uint8_t> payload");
    assert_eq!(m.format_constructor_implementation(), "_payload(std::move(payload))");
    assert_eq!(m.format_constructor_call(), "std::move(payload)");
    assert_eq!(m.format_column_value_variant(), "std::vector<uint8_t>{}");
    assert_eq!(
        m.format_getter_declaration(),
        "        [[nodiscard]] const std::vector<uint8_t>& get_payload() const { return _payload; }\n"
    );
    assert_eq!(m.format_setter_declaration(), "        void set_payload(std::vector<uint8_t>);\n");
    assert_eq!(
        m.format_select_result_to_value(3),
        "std::holds_alternative<std::vector<uint8_t>>((*select_result)[3]) ? std::move(std::get<std::vector<uint8_t>>((*select_result)[3])) : std::vector<uint8_t>{}"
    );
}

#[test]
fn nullable_select_extraction() {
    let m = member("age", "INT64", Some(true), None);
    assert_eq!(
        m.format_select_result_to_value(2),
        "std::holds_alternative<int64_t>((*select_result)[2]) ? std::get<int64_t>((*select_result)[2]) : std::optional<int64_t>{}"
    );
    let m = member("age", "INT64", None, None);
    assert_eq!(m.format_select_result_to_value(2), "std::get<int64_t>((*select_result)[2])");
}

#[test]
fn binder_ordinals_reach_two_digits() {
    let mut members = Vec::new();
    for i in 0..12 {
        members.push(member(&format!("f{}", i), "INT32", None, None));
    }
    let schema = vec![object_type("Wide", members)];
    let source = generate_source("t", "ns", &schema);
    assert!(source.contains("        if (value_index == 10) { return f9; }"));
    assert!(source.contains("        if (value_index == 12) { return f11; }"));
    assert!(source.contains("insert_into_table(__db, insert_statement, 12, binder)"));
    assert!(source.contains("(*select_result)[12]"));
    assert!(source.contains("VALUES (NULL, ?, ?, ?, ?, ?, ?, ?, ?, ?, ?, ?, ?);"));
}

#[test]
fn empty_schema_generates_empty_namespace() {
    let opts = options("none", "empty_ns");
    let arts = generate(String::from(""), &opts, &Vec::new()).unwrap();
    assert!(arts.header_text.ends_with("namespace empty_ns {\n}\n"));
    assert_eq!(
        arts.source_text,
        "// Auto-generated file. Changes will be overridden.\n#include \"none.orm.h\"\n\n"
    );
}
