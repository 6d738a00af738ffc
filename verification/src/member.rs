//! The per-member generation facts: the closed type-mapping table from a
//! member's kind to its C++ representation, column clause, bind expression and
//! extract expression, and the formatters that compose one fragment of the
//! generated text per member.
//!
//! Every formatter is a pure function of the member (and, where relevant, a
//! column ordinal); each has a spec twin that pins the emitted text exactly.
//! A member whose kind spelling is unrecognized formats as the empty string,
//! as such members are rejected by validation before emission.

use vstd::prelude::*;

use crate::schema::Kind;
use crate::schema::Member;
use crate::schema::spec_kind_of;
use crate::text::dec_int;
use crate::text::push_dec_i32;

verus! {

/// The C++ value representation of a kind: a fixed-width signed integer,
/// optional-wrapped when nullable, or a byte vector (never nullable).
pub open spec fn spec_cxx_type(k: Kind, nullable: bool) -> Seq<char> {
    match k {
        Kind::Int32 => if nullable {
            "std::optional<int32_t>"@
        } else {
            "int32_t"@
        },
        Kind::Int64 => if nullable {
            "std::optional<int64_t>"@
        } else {
            "int64_t"@
        },
        Kind::ByteArray => "std::vector<uint8_t>"@,
    }
}

/// The C++ getter return type: byte vectors are returned by const reference
/// to avoid copying; scalars are returned by value.
pub open spec fn spec_getter_type(k: Kind, nullable: bool) -> Seq<char> {
    match k {
        Kind::ByteArray => "const std::vector<uint8_t>&"@,
        _ => spec_cxx_type(k, nullable),
    }
}

/// The not-null clause of a column: empty for a nullable column.
pub open spec fn spec_column_nullability(nullable: bool) -> Seq<char> {
    if nullable {
        ""@
    } else {
        "NOT NULL"@
    }
}

/// The default-value literal of a column: a null literal for a nullable
/// column, zero otherwise.
pub open spec fn spec_column_default(nullable: bool) -> Seq<char> {
    if nullable {
        "NULL"@
    } else {
        "0"@
    }
}

/// The expected value-variant of a column, as declared to the select call.
pub open spec fn spec_value_variant_of(k: Kind) -> Seq<char> {
    match k {
        Kind::Int32 => "int32_t{}"@,
        Kind::Int64 => "int64_t{}"@,
        Kind::ByteArray => "std::vector<uint8_t>{}"@,
    }
}

fn cxx_type_str(k: Kind, nullable: bool) -> (r: &'static str)
    ensures
        r@ == spec_cxx_type(k, nullable),
{
    match k {
        Kind::Int32 => if nullable {
            "std::optional<int32_t>"
        } else {
            "int32_t"
        },
        Kind::Int64 => if nullable {
            "std::optional<int64_t>"
        } else {
            "int64_t"
        },
        Kind::ByteArray => "std::vector<uint8_t>",
    }
}

fn getter_type_str(k: Kind, nullable: bool) -> (r: &'static str)
    ensures
        r@ == spec_getter_type(k, nullable),
{
    match k {
        Kind::ByteArray => "const std::vector<uint8_t>&",
        _ => cxx_type_str(k, nullable),
    }
}

impl Member {
    /// The doc-comment line emitted above a field, or nothing.
    pub open spec fn spec_description_comment(self) -> Seq<char> {
        match self.description {
            Some(d) => "        /// "@ + d@ + "\n"@,
            None => Seq::empty(),
        }
    }

    /// The field name as it appears in the schema.
    pub open spec fn spec_name(self) -> Seq<char> {
        self.name@
    }

    /// The storage-field declaration: an optional doc comment, then the
    /// representation type from the mapping table and the underscored field
    /// name.
    pub open spec fn spec_declaration(self) -> Seq<char> {
        match spec_kind_of(self.type_@) {
            Some(k) => self.spec_description_comment() + "        "@ + spec_cxx_type(
                k,
                self.spec_allow_null(),
            ) + " _"@ + self.name@ + ";\n"@,
            None => Seq::empty(),
        }
    }

    /// The constructor parameter: representation type, space, member name.
    pub open spec fn spec_constructor_parameter(self) -> Seq<char> {
        match spec_kind_of(self.type_@) {
            Some(k) => spec_cxx_type(k, self.spec_allow_null()) + " "@ + self.name@,
            None => Seq::empty(),
        }
    }

    /// The constructor initializer: byte vectors are moved, scalars copied.
    pub open spec fn spec_constructor_implementation(self) -> Seq<char> {
        match spec_kind_of(self.type_@) {
            Some(Kind::ByteArray) => "_"@ + self.name@ + "(std::move("@ + self.name@ + "))"@,
            _ => "_"@ + self.name@ + "("@ + self.name@ + ")"@,
        }
    }

    /// The argument passed when re-constructing the instance after an insert:
    /// byte vectors are moved, scalars passed as is.
    pub open spec fn spec_constructor_call(self) -> Seq<char> {
        match spec_kind_of(self.type_@) {
            Some(Kind::ByteArray) => "std::move("@ + self.name@ + ")"@,
            _ => self.name@,
        }
    }

    /// The expected value-variant of this member's column.
    pub open spec fn spec_column_value_variant(self) -> Seq<char> {
        match spec_kind_of(self.type_@) {
            Some(k) => spec_value_variant_of(k),
            None => Seq::empty(),
        }
    }

    /// The extract expression turning the select result's column `index` back
    /// into the field value: a nullable scalar maps an absent or mismatched
    /// variant to an empty optional, a byte vector maps a mismatch to an empty
    /// vector, and a non-nullable scalar is taken directly.
    pub open spec fn spec_select_result_to_value(self, index: int) -> Seq<char> {
        let idx = dec_int(index);
        match spec_kind_of(self.type_@) {
            Some(Kind::Int32) => if self.spec_allow_null() {
                "std::holds_alternative<int32_t>((*select_result)["@ + idx
                    + "]) ? std::get<int32_t>((*select_result)["@ + idx
                    + "]) : std::optional<int32_t>{}"@
            } else {
                "std::get<int32_t>((*select_result)["@ + idx + "])"@
            },
            Some(Kind::Int64) => if self.spec_allow_null() {
                "std::holds_alternative<int64_t>((*select_result)["@ + idx
                    + "]) ? std::get<int64_t>((*select_result)["@ + idx
                    + "]) : std::optional<int64_t>{}"@
            } else {
                "std::get<int64_t>((*select_result)["@ + idx + "])"@
            },
            Some(Kind::ByteArray) => "std::holds_alternative<std::vector<uint8_t>>((*select_result)["@
                + idx + "]) ? std::move(std::get<std::vector<uint8_t>>((*select_result)["@ + idx
                + "])) : std::vector<uint8_t>{}"@,
            None => Seq::empty(),
        }
    }

    /// The getter declaration with inline body.
    pub open spec fn spec_getter_declaration(self) -> Seq<char> {
        match spec_kind_of(self.type_@) {
            Some(k) => "        [[nodiscard]] "@ + spec_getter_type(k, self.spec_allow_null())
                + " get_"@ + self.name@ + "() const { return _"@ + self.name@ + "; }\n"@,
            None => Seq::empty(),
        }
    }

    /// The setter declaration (declaration only; no body is generated).
    pub open spec fn spec_setter_declaration(self) -> Seq<char> {
        match spec_kind_of(self.type_@) {
            Some(k) => "        void set_"@ + self.name@ + "("@ + spec_cxx_type(
                k,
                self.spec_allow_null(),
            ) + ");\n"@,
            None => Seq::empty(),
        }
    }

    /// The column clause of the create-table statement: integers get the
    /// not-null clause and default from the mapping table, byte arrays are
    /// binary-blob columns.
    pub open spec fn spec_database_schema(self) -> Seq<char> {
        match spec_kind_of(self.type_@) {
            Some(Kind::ByteArray) => self.name@ + " BLOB"@,
            Some(_) => self.name@ + " INTEGER "@ + spec_column_nullability(self.spec_allow_null())
                + " DEFAULT "@ + spec_column_default(self.spec_allow_null()),
            None => Seq::empty(),
        }
    }

    /// The bind expression for the insert statement: a nullable member binds
    /// either its contained value or a null sentinel; any other member binds
    /// its value directly.
    pub open spec fn spec_binder_implementation(self) -> Seq<char> {
        if self.spec_allow_null() {
            self.name@ + " ? genORM::value_variant{*"@ + self.name@ + "} : std::monostate{}"@
        } else {
            self.name@
        }
    }

    pub fn format_name(&self) -> (r: String)
        ensures
            r@ == self.spec_name(),
    {
        self.name.clone()
    }

    pub fn format_declaration(&self) -> (r: String)
        ensures
            r@ == self.spec_declaration(),
    {
        match self.kind() {
            Some(k) => {
                let mut s = String::new();
                match &self.description {
                    Some(d) => {
                        s.append("        /// ");
                        s.append(d.as_str());
                        s.append("\n");
                    },
                    None => {},
                }
                s.append("        ");
                s.append(cxx_type_str(k, self.is_allow_null()));
                s.append(" _");
                s.append(self.name.as_str());
                s.append(";\n");
                proof {
                    assert(s@ =~= self.spec_declaration());
                }
                s
            },
            None => String::new(),
        }
    }

    pub fn format_constructor_parameter(&self) -> (r: String)
        ensures
            r@ == self.spec_constructor_parameter(),
    {
        match self.kind() {
            Some(k) => {
                let mut s = String::from_str(cxx_type_str(k, self.is_allow_null()));
                s.append(" ");
                s.append(self.name.as_str());
                s
            },
            None => String::new(),
        }
    }

    pub fn format_constructor_implementation(&self) -> (r: String)
        ensures
            r@ == self.spec_constructor_implementation(),
    {
        let mut s = String::from_str("_");
        s.append(self.name.as_str());
        match self.kind() {
            Some(Kind::ByteArray) => {
                s.append("(std::move(");
                s.append(self.name.as_str());
                s.append("))");
            },
            _ => {
                s.append("(");
                s.append(self.name.as_str());
                s.append(")");
            },
        }
        s
    }

    pub fn format_constructor_call(&self) -> (r: String)
        ensures
            r@ == self.spec_constructor_call(),
    {
        match self.kind() {
            Some(Kind::ByteArray) => {
                let mut s = String::from_str("std::move(");
                s.append(self.name.as_str());
                s.append(")");
                s
            },
            _ => self.name.clone(),
        }
    }

    pub fn format_column_value_variant(&self) -> (r: String)
        ensures
            r@ == self.spec_column_value_variant(),
    {
        match self.kind() {
            Some(Kind::Int32) => String::from_str("int32_t{}"),
            Some(Kind::Int64) => String::from_str("int64_t{}"),
            Some(Kind::ByteArray) => String::from_str("std::vector<uint8_t>{}"),
            None => String::new(),
        }
    }

    pub fn format_select_result_to_value(&self, index: i32) -> (r: String)
        ensures
            r@ == self.spec_select_result_to_value(index as int),
    {
        match self.kind() {
            Some(Kind::Int32) => {
                if self.is_allow_null() {
                    let mut s = String::from_str(
                        "std::holds_alternative<int32_t>((*select_result)[",
                    );
                    push_dec_i32(&mut s, index);
                    s.append("]) ? std::get<int32_t>((*select_result)[");
                    push_dec_i32(&mut s, index);
                    s.append("]) : std::optional<int32_t>{}");
                    s
                } else {
                    let mut s = String::from_str("std::get<int32_t>((*select_result)[");
                    push_dec_i32(&mut s, index);
                    s.append("])");
                    s
                }
            },
            Some(Kind::Int64) => {
                if self.is_allow_null() {
                    let mut s = String::from_str(
                        "std::holds_alternative<int64_t>((*select_result)[",
                    );
                    push_dec_i32(&mut s, index);
                    s.append("]) ? std::get<int64_t>((*select_result)[");
                    push_dec_i32(&mut s, index);
                    s.append("]) : std::optional<int64_t>{}");
                    s
                } else {
                    let mut s = String::from_str("std::get<int64_t>((*select_result)[");
                    push_dec_i32(&mut s, index);
                    s.append("])");
                    s
                }
            },
            Some(Kind::ByteArray) => {
                let mut s = String::from_str(
                    "std::holds_alternative<std::vector<uint8_t>>((*select_result)[",
                );
                push_dec_i32(&mut s, index);
                s.append("]) ? std::move(std::get<std::vector<uint8_t>>((*select_result)[");
                push_dec_i32(&mut s, index);
                s.append("])) : std::vector<uint8_t>{}");
                s
            },
            None => String::new(),
        }
    }

    pub fn format_getter_declaration(&self) -> (r: String)
        ensures
            r@ == self.spec_getter_declaration(),
    {
        match self.kind() {
            Some(k) => {
                let mut s = String::from_str("        [[nodiscard]] ");
                s.append(getter_type_str(k, self.is_allow_null()));
                s.append(" get_");
                s.append(self.name.as_str());
                s.append("() const { return _");
                s.append(self.name.as_str());
                s.append("; }\n");
                s
            },
            None => String::new(),
        }
    }

    pub fn format_setter_declaration(&self) -> (r: String)
        ensures
            r@ == self.spec_setter_declaration(),
    {
        match self.kind() {
            Some(k) => {
                let mut s = String::from_str("        void set_");
                s.append(self.name.as_str());
                s.append("(");
                s.append(cxx_type_str(k, self.is_allow_null()));
                s.append(");\n");
                s
            },
            None => String::new(),
        }
    }

    pub fn format_database_schema(&self) -> (r: String)
        ensures
            r@ == self.spec_database_schema(),
    {
        match self.kind() {
            Some(Kind::ByteArray) => {
                let mut s = self.name.clone();
                s.append(" BLOB");
                s
            },
            Some(_) => {
                let mut s = self.name.clone();
                s.append(" INTEGER ");
                if self.is_allow_null() {
                    s.append("");
                } else {
                    s.append("NOT NULL");
                }
                s.append(" DEFAULT ");
                if self.is_allow_null() {
                    s.append("NULL");
                } else {
                    s.append("0");
                }
                s
            },
            None => String::new(),
        }
    }

    pub fn format_binder_implementation(&self) -> (r: String)
        ensures
            r@ == self.spec_binder_implementation(),
    {
        if self.is_allow_null() {
            let mut s = self.name.clone();
            s.append(" ? genORM::value_variant{*");
            s.append(self.name.as_str());
            s.append("} : std::monostate{}");
            s
        } else {
            self.name.clone()
        }
    }
}

} // verus!
