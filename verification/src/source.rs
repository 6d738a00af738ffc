//! The definition emitter: composes, for each object type, its executable
//! logic (constructor body, table and index bootstrap statements, insert
//! binder, and row-to-object mapping) into one definition artifact. The
//! artifact text is a pure, deterministic function of the schema; the emitter
//! assumes a schema that the validator has already accepted, and a member
//! whose kind is unrecognized contributes empty fragments.

use vstd::prelude::*;

use crate::schema::Member;
use crate::schema::ObjectType;
use crate::text::concat_seqs;
use crate::text::concat_strings;
use crate::text::dec_digits;
use crate::text::join_seqs;
use crate::text::join_strings;
use crate::text::push_dec_u64;
use crate::text::views_of;

verus! {

/// The constructor initializer list: one initializer per member, in member
/// order, comma-separated.
pub open spec fn spec_constructor_implementations(ms: Seq<Member>) -> Seq<char> {
    join_seqs(ms.map_values(|m: Member| m.spec_constructor_implementation()), ", "@)
}

/// The arguments re-constructing the instance after an insert, in member
/// order, comma-separated.
pub open spec fn spec_constructor_calls(ms: Seq<Member>) -> Seq<char> {
    join_seqs(ms.map_values(|m: Member| m.spec_constructor_call()), ", "@)
}

/// The column list of the create-table statement: one column clause per
/// member, in member order, comma-separated.
pub open spec fn spec_create_table_columns(ms: Seq<Member>) -> Seq<char> {
    join_seqs(ms.map_values(|m: Member| m.spec_database_schema()), ", "@)
}

/// The expected value-variants declared to the select call, in member order,
/// comma-separated.
pub open spec fn spec_column_value_variants(ms: Seq<Member>) -> Seq<char> {
    join_seqs(ms.map_values(|m: Member| m.spec_column_value_variant()), ", "@)
}

/// The idempotent index-bootstrap statement block contributed by an indexed
/// member, its index named deterministically from the class and member names.
/// A non-indexed member contributes nothing.
pub open spec fn spec_index_block(class: Seq<char>, m: Member) -> Seq<char> {
    if m.spec_index() {
        "    {\n        static constexpr std::string_view create_index_statement = \"CREATE INDEX IF NOT EXISTS Index_"@
            + class + "_"@ + m.name@ + " ON "@ + class + "("@ + m.name@
            + ");\";\n        if (auto create_index_result = create_index_if_not_exists(__db, create_index_statement); not create_index_result) { return std::unexpected{std::move(create_index_result.error())}; }\n    }\n"@
    } else {
        Seq::empty()
    }
}

/// The index-bootstrap blocks of all indexed members, in member order.
pub open spec fn spec_index_blocks(class: Seq<char>, ms: Seq<Member>) -> Seq<char> {
    concat_seqs(ms.map_values(|m: Member| spec_index_block(class, m)))
}

/// `n` insert placeholders, comma-separated.
pub open spec fn spec_placeholders(n: nat) -> Seq<char>
    decreases n,
{
    if n == 0 {
        Seq::empty()
    } else if n == 1 {
        "?"@
    } else {
        spec_placeholders((n - 1) as nat) + ", "@ + "?"@
    }
}

/// One line of the insert binder: maps the 1-based column `ordinal` to the
/// member's bind expression.
pub open spec fn spec_binder_line(m: Member, ordinal: nat) -> Seq<char> {
    "        if (value_index == "@ + dec_digits(ordinal) + ") { return "@
        + m.spec_binder_implementation() + "; }"@
}

/// The binder lines of all members, in member order, each with its 1-based
/// column ordinal.
pub open spec fn spec_binder_lines(ms: Seq<Member>) -> Seq<Seq<char>> {
    Seq::new(ms.len(), |j: int| spec_binder_line(ms[j], (j + 1) as nat))
}

/// The whole binder body: the per-member lines, then the unreachable-ordinal
/// guard.
pub open spec fn spec_binder_body(ms: Seq<Member>) -> Seq<char> {
    join_seqs(spec_binder_lines(ms), "\n"@)
        + "\n        throw std::logic_error(\"Implementation error\");\n"@
}

/// The 1-based column ordinal as the emitted text represents it: the position
/// is incremented and narrowed to a 32-bit signed value.
pub open spec fn spec_column_ordinal(j: int) -> int {
    (((j + 1) as usize) as i32) as int
}

/// The extract expressions of all members, in member order, each reading its
/// 1-based column.
pub open spec fn spec_select_values(ms: Seq<Member>) -> Seq<Seq<char>> {
    Seq::new(ms.len(), |j: int| ms[j].spec_select_result_to_value(spec_column_ordinal(j)))
}

/// The constructor definition of one object type.
pub open spec fn spec_constructor_definition(ns: Seq<char>, t: ObjectType) -> Seq<char> {
    ns + "::"@ + t.name@ + "::"@ + t.name@ + "(genORM::database& __db, uint64_t __id, "@
        + crate::header::spec_constructor_parameters(t.members@) + ")\n    : object(__db, __id), "@
        + spec_constructor_implementations(t.members@) + " {}\n\n"@
}

/// The factory definition of one object type: the idempotent create-table
/// statement (identity column first, then one column per member in member
/// order), the index-bootstrap blocks, and the parameterized insert with its
/// binder; each step's failure returns the diagnostic immediately.
pub open spec fn spec_create_implementation(ns: Seq<char>, t: ObjectType) -> Seq<char> {
    "std::expected<"@ + ns + "::"@ + t.name@ + ", std::string> "@ + ns + "::"@ + t.name@
        + "::create(genORM::database& __db, "@ + crate::header::spec_constructor_parameters(
        t.members@,
    )
        + ") {\n    static constexpr std::string_view create_table_statement = \"CREATE TABLE IF NOT EXISTS "@
        + t.name@ + " (__id INTEGER PRIMARY KEY NOT NULL, "@ + spec_create_table_columns(t.members@)
        + ") STRICT;\";\n    if (auto create_table_result = create_table_if_not_exists(__db, create_table_statement); not create_table_result) { return std::unexpected{std::move(create_table_result.error())}; }\n"@
        + spec_index_blocks(t.name@, t.members@)
        + "    static constexpr std::string_view insert_statement = \"INSERT INTO "@ + t.name@
        + " VALUES (NULL, "@ + spec_placeholders(t.members@.len())
        + ");\";\n    const auto binder = [&](int value_index) -> genORM::value_variant {\n"@
        + spec_binder_body(t.members@)
        + "    };\n    if (auto create_table_result = insert_into_table(__db, insert_statement, "@
        + dec_digits(t.members@.len()) + ", binder)) {\n        return "@ + t.name@
        + "{__db, *create_table_result, "@ + spec_constructor_calls(t.members@)
        + "};\n    } else {\n        return std::unexpected{std::move(create_table_result.error())};\n    }\n}\n"@
}

/// The identity-lookup definition of one object type: the select-by-identity
/// statement, the expected value-variant of every column, and the extract
/// expression mapping each returned column back to its field.
pub open spec fn spec_find_by_rowid_implementation(ns: Seq<char>, t: ObjectType) -> Seq<char> {
    "std::expected<"@ + ns + "::"@ + t.name@ + ", std::string> "@ + ns + "::"@ + t.name@
        + "::find_by_rowid(genORM::database& __db, const uint64_t __id) {\n    static constexpr std::string_view select_statement = \"SELECT * FROM "@
        + t.name@
        + " WHERE __id = ?;\";\n    if (auto select_result = select_one(__db, select_statement, 1, [=](int) -> genORM::value_variant { return static_cast<int64_t>(__id); },\n            std::vector<genORM::value_variant>{{int64_t{}, "@
        + spec_column_value_variants(t.members@) + "}})) {\n        return "@ + t.name@
        + "{__db, __id,\n            "@
        + join_seqs(spec_select_values(t.members@), ",\n            "@)
        + "\n        };\n    } else {\n        return std::unexpected{std::move(select_result.error())};\n    }\n}\n"@
}

/// The whole definition block of one object type: constructor, factory, and
/// identity lookup.
pub open spec fn spec_definition_block(ns: Seq<char>, t: ObjectType) -> Seq<char> {
    spec_constructor_definition(ns, t) + spec_create_implementation(ns, t)
        + spec_find_by_rowid_implementation(ns, t) + "\n"@
}

/// The whole definition artifact: the fixed banner, the include of the
/// matching declaration artifact, and one definition block per object type in
/// input order.
pub open spec fn spec_source_text(file_prefix: Seq<char>, ns: Seq<char>, ts: Seq<ObjectType>) -> Seq<
    char,
> {
    "// Auto-generated file. Changes will be overridden.\n#include \""@ + file_prefix
        + ".orm.h\"\n\n"@ + concat_seqs(ts.map_values(|t: ObjectType| spec_definition_block(ns, t)))
}

/// Collects each member's constructor initializer, in order.
fn constructor_implementation_frags(ms: &Vec<Member>) -> (r: Vec<String>)
    ensures
        views_of(r@) == ms@.map_values(|m: Member| m.spec_constructor_implementation()),
{
    let mut out: Vec<String> = Vec::new();
    let n = ms.len();
    let mut i: usize = 0;
    while i < n
        invariant
            i <= n,
            n == ms@.len(),
            views_of(out@) == ms@.take(i as int).map_values(
                |m: Member| m.spec_constructor_implementation(),
            ),
        decreases n - i,
    {
        out.push(ms[i].format_constructor_implementation());
        proof {
            broadcast use vstd::prelude::Seq::lemma_push_map_commute;
            broadcast use vstd::prelude::Seq::lemma_map_take_succ;
            assert(views_of(out@) =~= ms@.take(i as int + 1).map_values(
                |m: Member| m.spec_constructor_implementation(),
            ));
        }
        i += 1;
    }
    proof {
        assert(ms@.take(n as int) =~= ms@);
    }
    out
}

/// Collects each member's re-construction argument, in order.
fn constructor_call_frags(ms: &Vec<Member>) -> (r: Vec<String>)
    ensures
        views_of(r@) == ms@.map_values(|m: Member| m.spec_constructor_call()),
{
    let mut out: Vec<String> = Vec::new();
    let n = ms.len();
    let mut i: usize = 0;
    while i < n
        invariant
            i <= n,
            n == ms@.len(),
            views_of(out@) == ms@.take(i as int).map_values(
                |m: Member| m.spec_constructor_call(),
            ),
        decreases n - i,
    {
        out.push(ms[i].format_constructor_call());
        proof {
            broadcast use vstd::prelude::Seq::lemma_push_map_commute;
            broadcast use vstd::prelude::Seq::lemma_map_take_succ;
            assert(views_of(out@) =~= ms@.take(i as int + 1).map_values(
                |m: Member| m.spec_constructor_call(),
            ));
        }
        i += 1;
    }
    proof {
        assert(ms@.take(n as int) =~= ms@);
    }
    out
}

/// Collects each member's column clause, in order.
fn database_schema_frags(ms: &Vec<Member>) -> (r: Vec<String>)
    ensures
        views_of(r@) == ms@.map_values(|m: Member| m.spec_database_schema()),
{
    let mut out: Vec<String> = Vec::new();
    let n = ms.len();
    let mut i: usize = 0;
    while i < n
        invariant
            i <= n,
            n == ms@.len(),
            views_of(out@) == ms@.take(i as int).map_values(
                |m: Member| m.spec_database_schema(),
            ),
        decreases n - i,
    {
        out.push(ms[i].format_database_schema());
        proof {
            broadcast use vstd::prelude::Seq::lemma_push_map_commute;
            broadcast use vstd::prelude::Seq::lemma_map_take_succ;
            assert(views_of(out@) =~= ms@.take(i as int + 1).map_values(
                |m: Member| m.spec_database_schema(),
            ));
        }
        i += 1;
    }
    proof {
        assert(ms@.take(n as int) =~= ms@);
    }
    out
}

/// Collects each member's expected value-variant, in order.
fn column_value_variant_frags(ms: &Vec<Member>) -> (r: Vec<String>)
    ensures
        views_of(r@) == ms@.map_values(|m: Member| m.spec_column_value_variant()),
{
    let mut out: Vec<String> = Vec::new();
    let n = ms.len();
    let mut i: usize = 0;
    while i < n
        invariant
            i <= n,
            n == ms@.len(),
            views_of(out@) == ms@.take(i as int).map_values(
                |m: Member| m.spec_column_value_variant(),
            ),
        decreases n - i,
    {
        out.push(ms[i].format_column_value_variant());
        proof {
            broadcast use vstd::prelude::Seq::lemma_push_map_commute;
            broadcast use vstd::prelude::Seq::lemma_map_take_succ;
            assert(views_of(out@) =~= ms@.take(i as int + 1).map_values(
                |m: Member| m.spec_column_value_variant(),
            ));
        }
        i += 1;
    }
    proof {
        assert(ms@.take(n as int) =~= ms@);
    }
    out
}

/// Formats the index-bootstrap block an indexed member contributes.
fn format_index_block(class: &str, m: &Member) -> (r: String)
    ensures
        r@ == spec_index_block(class@, *m),
{
    if m.is_index() {
        let mut s = String::from_str(
            "    {\n        static constexpr std::string_view create_index_statement = \"CREATE INDEX IF NOT EXISTS Index_",
        );
        s.append(class);
        s.append("_");
        s.append(m.name.as_str());
        s.append(" ON ");
        s.append(class);
        s.append("(");
        s.append(m.name.as_str());
        s.append(
            ");\";\n        if (auto create_index_result = create_index_if_not_exists(__db, create_index_statement); not create_index_result) { return std::unexpected{std::move(create_index_result.error())}; }\n    }\n",
        );
        s
    } else {
        String::new()
    }
}

/// Collects the index-bootstrap blocks of the indexed members, in member
/// order.
fn index_block_frags(class: &str, ms: &Vec<Member>) -> (r: Vec<String>)
    ensures
        views_of(r@) == ms@.map_values(|m: Member| spec_index_block(class@, m)),
{
    let mut out: Vec<String> = Vec::new();
    let n = ms.len();
    let mut i: usize = 0;
    while i < n
        invariant
            i <= n,
            n == ms@.len(),
            views_of(out@) == ms@.take(i as int).map_values(
                |m: Member| spec_index_block(class@, m),
            ),
        decreases n - i,
    {
        out.push(format_index_block(class, &ms[i]));
        proof {
            broadcast use vstd::prelude::Seq::lemma_push_map_commute;
            broadcast use vstd::prelude::Seq::lemma_map_take_succ;
            assert(views_of(out@) =~= ms@.take(i as int + 1).map_values(
                |m: Member| spec_index_block(class@, m),
            ));
        }
        i += 1;
    }
    proof {
        assert(ms@.take(n as int) =~= ms@);
    }
    out
}

/// Renders `n` comma-separated insert placeholders.
fn placeholders(n: usize) -> (r: String)
    ensures
        r@ == spec_placeholders(n as nat),
{
    let mut s = String::new();
    let mut i: usize = 0;
    while i < n
        invariant
            i <= n,
            s@ == spec_placeholders(i as nat),
        decreases n - i,
    {
        if i > 0 {
            s.append(", ");
        }
        s.append("?");
        proof {
            if i == 0 {
                assert(s@ =~= spec_placeholders(1));
            }
        }
        i += 1;
    }
    s
}

/// Formats one binder line for the member at the given 1-based column
/// ordinal.
fn format_binder_line(m: &Member, ordinal: usize) -> (r: String)
    ensures
        r@ == spec_binder_line(*m, ordinal as nat),
{
    let mut s = String::from_str("        if (value_index == ");
    push_dec_u64(&mut s, ordinal as u64);
    s.append(") { return ");
    let b = m.format_binder_implementation();
    s.append(b.as_str());
    s.append("; }");
    s
}

/// Collects the binder lines of all members, in order.
fn binder_line_frags(ms: &Vec<Member>) -> (r: Vec<String>)
    ensures
        views_of(r@) == spec_binder_lines(ms@),
{
    let mut out: Vec<String> = Vec::new();
    let n = ms.len();
    let mut i: usize = 0;
    while i < n
        invariant
            i <= n,
            n == ms@.len(),
            views_of(out@) == spec_binder_lines(ms@.take(i as int)),
        decreases n - i,
    {
        out.push(format_binder_line(&ms[i], i + 1));
        proof {
            broadcast use vstd::prelude::Seq::lemma_push_map_commute;
            assert(views_of(out@) =~= spec_binder_lines(ms@.take(i as int + 1)));
        }
        i += 1;
    }
    proof {
        assert(ms@.take(n as int) =~= ms@);
    }
    out
}

/// Collects the extract expressions of all members, in order.
fn select_value_frags(ms: &Vec<Member>) -> (r: Vec<String>)
    ensures
        views_of(r@) == spec_select_values(ms@),
{
    let mut out: Vec<String> = Vec::new();
    let n = ms.len();
    let mut i: usize = 0;
    while i < n
        invariant
            i <= n,
            n == ms@.len(),
            views_of(out@) == spec_select_values(ms@.take(i as int)),
        decreases n - i,
    {
        let ordinal: i32 = #[verifier::truncate] ((i + 1) as i32);
        out.push(ms[i].format_select_result_to_value(ordinal));
        proof {
            broadcast use vstd::prelude::Seq::lemma_push_map_commute;
            assert(ordinal as int == spec_column_ordinal(i as int));
            assert(views_of(out@) =~= spec_select_values(ms@.take(i as int + 1)));
        }
        i += 1;
    }
    proof {
        assert(ms@.take(n as int) =~= ms@);
    }
    out
}

/// Composes the constructor definition of one object type.
fn format_constructor_definition(ns: &str, t: &ObjectType) -> (r: String)
    ensures
        r@ == spec_constructor_definition(ns@, *t),
{
    let impls = join_strings(&constructor_implementation_frags(&t.members), ", ");
    let params = join_strings(&crate::header::constructor_parameter_frags(&t.members), ", ");
    let mut s = String::from_str(ns);
    s.append("::");
    s.append(t.name.as_str());
    s.append("::");
    s.append(t.name.as_str());
    s.append("(genORM::database& __db, uint64_t __id, ");
    s.append(params.as_str());
    s.append(")\n    : object(__db, __id), ");
    s.append(impls.as_str());
    s.append(" {}\n\n");
    proof {
        assert(s@ =~= spec_constructor_definition(ns@, *t));
    }
    s
}

/// Composes the factory definition of one object type.
fn format_create_implementation(ns: &str, t: &ObjectType) -> (r: String)
    ensures
        r@ == spec_create_implementation(ns@, *t),
{
    let params = join_strings(&crate::header::constructor_parameter_frags(&t.members), ", ");
    let cols = join_strings(&database_schema_frags(&t.members), ", ");
    let index_blocks = concat_strings(&index_block_frags(t.name.as_str(), &t.members));
    let qmarks = placeholders(t.members.len());
    let binder_lines = join_strings(&binder_line_frags(&t.members), "\n");
    let calls = join_strings(&constructor_call_frags(&t.members), ", ");
    let mut s = String::from_str("std::expected<");
    s.append(ns);
    s.append("::");
    s.append(t.name.as_str());
    s.append(", std::string> ");
    s.append(ns);
    s.append("::");
    s.append(t.name.as_str());
    s.append("::create(genORM::database& __db, ");
    s.append(params.as_str());
    s.append(
        ") {\n    static constexpr std::string_view create_table_statement = \"CREATE TABLE IF NOT EXISTS ",
    );
    s.append(t.name.as_str());
    s.append(" (__id INTEGER PRIMARY KEY NOT NULL, ");
    s.append(cols.as_str());
    s.append(
        ") STRICT;\";\n    if (auto create_table_result = create_table_if_not_exists(__db, create_table_statement); not create_table_result) { return std::unexpected{std::move(create_table_result.error())}; }\n",
    );
    s.append(index_blocks.as_str());
    s.append("    static constexpr std::string_view insert_statement = \"INSERT INTO ");
    s.append(t.name.as_str());
    s.append(" VALUES (NULL, ");
    s.append(qmarks.as_str());
    s.append(");\";\n    const auto binder = [&](int value_index) -> genORM::value_variant {\n");
    s.append(binder_lines.as_str());
    s.append("\n        throw std::logic_error(\"Implementation error\");\n");
    s.append("    };\n    if (auto create_table_result = insert_into_table(__db, insert_statement, ");
    push_dec_u64(&mut s, t.members.len() as u64);
    s.append(", binder)) {\n        return ");
    s.append(t.name.as_str());
    s.append("{__db, *create_table_result, ");
    s.append(calls.as_str());
    s.append("};\n    } else {\n        return std::unexpected{std::move(create_table_result.error())};\n    }\n}\n");
    proof {
        assert(s@ =~= spec_create_implementation(ns@, *t));
    }
    s
}

/// Composes the identity-lookup definition of one object type.
fn format_find_by_rowid_implementation(ns: &str, t: &ObjectType) -> (r: String)
    ensures
        r@ == spec_find_by_rowid_implementation(ns@, *t),
{
    let variants = join_strings(&column_value_variant_frags(&t.members), ", ");
    let selects = join_strings(&select_value_frags(&t.members), ",\n            ");
    let mut s = String::from_str("std::expected<");
    s.append(ns);
    s.append("::");
    s.append(t.name.as_str());
    s.append(", std::string> ");
    s.append(ns);
    s.append("::");
    s.append(t.name.as_str());
    s.append(
        "::find_by_rowid(genORM::database& __db, const uint64_t __id) {\n    static constexpr std::string_view select_statement = \"SELECT * FROM ",
    );
    s.append(t.name.as_str());
    s.append(
        " WHERE __id = ?;\";\n    if (auto select_result = select_one(__db, select_statement, 1, [=](int) -> genORM::value_variant { return static_cast<int64_t>(__id); },\n            std::vector<genORM::value_variant>{{int64_t{}, ",
    );
    s.append(variants.as_str());
    s.append("}})) {\n        return ");
    s.append(t.name.as_str());
    s.append("{__db, __id,\n            ");
    s.append(selects.as_str());
    s.append(
        "\n        };\n    } else {\n        return std::unexpected{std::move(select_result.error())};\n    }\n}\n",
    );
    proof {
        assert(s@ =~= spec_find_by_rowid_implementation(ns@, *t));
    }
    s
}

/// Composes the whole definition block of one object type.
pub fn format_definition_block(ns: &str, t: &ObjectType) -> (r: String)
    ensures
        r@ == spec_definition_block(ns@, *t),
{
    let mut s = format_constructor_definition(ns, t);
    let create = format_create_implementation(ns, t);
    s.append(create.as_str());
    let find = format_find_by_rowid_implementation(ns, t);
    s.append(find.as_str());
    s.append("\n");
    s
}

/// Composes the definition artifact for the whole schema: the banner, the
/// include of the matching declaration artifact, and one definition block per
/// object type in input order. The result is exactly the deterministic
/// function of the schema that `spec_source_text` states.
pub fn generate_source(file_prefix: &str, namespace: &str, object_types: &Vec<ObjectType>) -> (r:
    String)
    ensures
        r@ == spec_source_text(file_prefix@, namespace@, object_types@),
{
    let ghost blocks = object_types@.map_values(
        |t: ObjectType| spec_definition_block(namespace@, t),
    );
    let mut body = String::from_str("// Auto-generated file. Changes will be overridden.\n#include \"");
    body.append(file_prefix);
    body.append(".orm.h\"\n\n");
    let ghost head = body@;
    proof {
        assert(blocks.take(0) =~= Seq::<Seq<char>>::empty());
        assert(head + concat_seqs(blocks.take(0)) =~= head);
    }
    let n = object_types.len();
    let mut i: usize = 0;
    while i < n
        invariant
            i <= n,
            n == object_types@.len(),
            blocks == object_types@.map_values(
                |t: ObjectType| spec_definition_block(namespace@, t),
            ),
            body@ == head + concat_seqs(blocks.take(i as int)),
        decreases n - i,
    {
        let b = format_definition_block(namespace, &object_types[i]);
        body.append(b.as_str());
        proof {
            let cur = blocks.take(i as int + 1);
            assert(cur.drop_last() =~= blocks.take(i as int));
            assert(cur.last() == blocks[i as int]);
            assert(body@ =~= head + concat_seqs(cur));
        }
        i += 1;
    }
    proof {
        assert(blocks.take(n as int) =~= blocks);
        assert(body@ =~= spec_source_text(file_prefix@, namespace@, object_types@));
    }
    body
}

} // verus!
