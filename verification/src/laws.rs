//! The library's stated laws, each proved from the specs that the public
//! functions' contracts use: determinism of generation, the exact validation
//! verdicts, the nullability mapping of integer columns, the fan-out of an
//! indexed member, and field-order fidelity.

use vstd::prelude::*;

use crate::header::spec_find_by_member_declarations;
use crate::header::spec_find_by_member_frag;
use crate::header::spec_header_text;
use crate::header::spec_member_declarations;
use crate::member::spec_column_default;
use crate::member::spec_column_nullability;
use crate::schema::Kind;
use crate::schema::Member;
use crate::schema::ObjectType;
use crate::schema::SchemaError;
use crate::source::spec_create_table_columns;
use crate::source::spec_index_block;
use crate::source::spec_index_blocks;
use crate::source::spec_source_text;
use crate::text::concat_seqs;
use crate::text::join_seqs;

verus! {

/// Determinism: the artifact texts are functions of the schema alone, so two
/// generation runs over an identical schema yield identical declaration text
/// and identical definition text.
pub proof fn lemma_generation_deterministic(
    file_prefix: Seq<char>,
    namespace: Seq<char>,
    ts: Seq<ObjectType>,
    header1: Seq<char>,
    source1: Seq<char>,
    header2: Seq<char>,
    source2: Seq<char>,
)
    requires
        header1 == spec_header_text(namespace, ts),
        source1 == spec_source_text(file_prefix, namespace, ts),
        header2 == spec_header_text(namespace, ts),
        source2 == spec_source_text(file_prefix, namespace, ts),
    ensures
        header1 == header2,
        source1 == source2,
{
}

/// Validation: an object type with no members is rejected with the
/// empty-members defect, whatever else it holds.
pub proof fn lemma_validation_empty_members(t: ObjectType)
    requires
        t.members@.len() == 0,
    ensures
        t.spec_error() == Some(SchemaError::EmptyMembers { owner_name: t.name }),
{
}

/// Validation: a member with an empty name is rejected with the empty-name
/// defect, whatever its kind and flags.
pub proof fn lemma_validation_empty_name(m: Member)
    requires
        m.name@.len() == 0,
    ensures
        m.spec_error() == Some(SchemaError::EmptyName),
{
}

/// Validation: a named member with an unrecognized kind spelling is rejected
/// with the unknown-kind defect carrying that spelling.
pub proof fn lemma_validation_unknown_kind(m: Member)
    requires
        m.name@.len() > 0,
        m.spec_kind() is None,
    ensures
        m.spec_error() == Some(SchemaError::UnknownKind { kind: m.type_ }),
{
}

/// The three kind spellings are distinct, so the byte-array spelling names
/// the byte-array kind.
proof fn lemma_bytearray_kind(m: Member)
    requires
        m.type_@ == "BYTEARRAY"@,
    ensures
        m.spec_kind() == Some(Kind::ByteArray),
{
    reveal_strlit("BYTEARRAY");
    reveal_strlit("INT32");
    reveal_strlit("INT64");
    assert(m.type_@.len() == 9);
    assert(m.type_@ != "INT32"@);
    assert(m.type_@ != "INT64"@);
}

/// Validation: a named nullable byte-array member is rejected with the
/// invalid-nullability defect.
pub proof fn lemma_validation_bytearray_nullable(m: Member)
    requires
        m.name@.len() > 0,
        m.type_@ == "BYTEARRAY"@,
        m.spec_allow_null(),
    ensures
        m.spec_error() == Some(SchemaError::InvalidNullability),
{
    lemma_bytearray_kind(m);
}

/// Validation: a named indexed byte-array member that is not nullable is
/// rejected with the invalid-index defect.
pub proof fn lemma_validation_bytearray_indexed(m: Member)
    requires
        m.name@.len() > 0,
        m.type_@ == "BYTEARRAY"@,
        !m.spec_allow_null(),
        m.spec_index(),
    ensures
        m.spec_error() == Some(SchemaError::InvalidIndex),
{
    lemma_bytearray_kind(m);
}

/// Nullability mapping: a nullable integer member's column clause carries no
/// not-null clause and defaults to the null literal; a non-nullable integer
/// member's column clause carries the not-null clause and a zero default.
pub proof fn lemma_nullability_mapping(m: Member)
    requires
        m.spec_kind() == Some(Kind::Int32) || m.spec_kind() == Some(Kind::Int64),
    ensures
        spec_column_nullability(m.spec_allow_null()) == if m.spec_allow_null() {
            Seq::<char>::empty()
        } else {
            "NOT NULL"@
        },
        spec_column_default(m.spec_allow_null()) == if m.spec_allow_null() {
            "NULL"@
        } else {
            "0"@
        },
        m.spec_allow_null() ==> m.spec_database_schema() == m.name@ + " INTEGER  DEFAULT NULL"@,
        !m.spec_allow_null() ==> m.spec_database_schema() == m.name@
            + " INTEGER NOT NULL DEFAULT 0"@,
{
    reveal_strlit("");
    reveal_strlit("NOT NULL");
    reveal_strlit("NULL");
    reveal_strlit("0");
    reveal_strlit(" INTEGER ");
    reveal_strlit(" DEFAULT ");
    reveal_strlit(" INTEGER  DEFAULT NULL");
    reveal_strlit(" INTEGER NOT NULL DEFAULT 0");
    assert(""@ =~= Seq::<char>::empty());
    if m.spec_allow_null() {
        assert(m.name@ + " INTEGER "@ + ""@ + " DEFAULT "@ + "NULL"@ =~= m.name@
            + " INTEGER  DEFAULT NULL"@);
    } else {
        assert(m.name@ + " INTEGER "@ + "NOT NULL"@ + " DEFAULT "@ + "0"@ =~= m.name@
            + " INTEGER NOT NULL DEFAULT 0"@);
    }
}

/// Concatenating all-empty fragments yields the empty text.
proof fn lemma_concat_all_empty(parts: Seq<Seq<char>>)
    requires
        forall|k: int| 0 <= k < parts.len() ==> #[trigger] parts[k] == Seq::<char>::empty(),
    ensures
        concat_seqs(parts) == Seq::<char>::empty(),
    decreases parts.len(),
{
    if parts.len() > 0 {
        lemma_concat_all_empty(parts.drop_last());
        assert(parts.last() == Seq::<char>::empty());
        assert(Seq::<char>::empty() + Seq::<char>::empty() =~= Seq::<char>::empty());
    }
}

/// Concatenating fragments that are all empty but one yields exactly that
/// one.
proof fn lemma_concat_single(parts: Seq<Seq<char>>, j: int)
    requires
        0 <= j < parts.len(),
        forall|k: int| 0 <= k < parts.len() && k != j ==> #[trigger] parts[k]
            == Seq::<char>::empty(),
    ensures
        concat_seqs(parts) == parts[j],
    decreases parts.len(),
{
    if j == parts.len() - 1 {
        lemma_concat_all_empty(parts.drop_last());
        assert(Seq::<char>::empty() + parts.last() =~= parts.last());
    } else {
        lemma_concat_single(parts.drop_last(), j);
        assert(parts.last() == Seq::<char>::empty());
        assert(parts.drop_last()[j] == parts[j]);
        assert(parts[j] + Seq::<char>::empty() =~= parts[j]);
    }
}

/// Index fan-out: an object type whose members hold exactly one indexed
/// member contributes exactly that member's two lookup declarations —
/// find-first and find-all, named from the class and member names — and
/// exactly its one index-bootstrap statement, and nothing for any other
/// member.
pub proof fn lemma_index_fan_out(class: Seq<char>, ms: Seq<Member>, j: int)
    requires
        0 <= j < ms.len(),
        ms[j].spec_index(),
        forall|k: int| 0 <= k < ms.len() && k != j ==> !(#[trigger] ms[k].spec_index()),
    ensures
        spec_find_by_member_declarations(class, ms) == spec_find_by_member_frag(class, ms[j]),
        spec_index_blocks(class, ms) == spec_index_block(class, ms[j]),
{
    let decls = ms.map_values(|m: Member| spec_find_by_member_frag(class, m));
    let blocks = ms.map_values(|m: Member| spec_index_block(class, m));
    assert forall|k: int| 0 <= k < decls.len() && k != j implies #[trigger] decls[k]
        == Seq::<char>::empty() by {
        assert(!ms[k].spec_index());
    }
    assert forall|k: int| 0 <= k < blocks.len() && k != j implies #[trigger] blocks[k]
        == Seq::<char>::empty() by {
        assert(!ms[k].spec_index());
    }
    lemma_concat_single(decls, j);
    lemma_concat_single(blocks, j);
    assert(decls[j] == spec_find_by_member_frag(class, ms[j]));
    assert(blocks[j] == spec_index_block(class, ms[j]));
}

/// Field-order fidelity: the fragment emitted at each position — storage
/// field, constructor parameter, and column clause alike — depends only on
/// the member at that position, so permuting the members permutes all three
/// fragment sequences identically.
pub proof fn lemma_field_order_fidelity(ms1: Seq<Member>, ms2: Seq<Member>, perm: Seq<int>)
    requires
        ms2.len() == ms1.len(),
        perm.len() == ms1.len(),
        forall|k: int| 0 <= k < perm.len() ==> 0 <= #[trigger] perm[k] < ms1.len(),
        forall|k: int| 0 <= k < ms2.len() ==> ms2[k] == ms1[perm[k]],
    ensures
        forall|k: int| #![auto] 0 <= k < ms2.len() ==> ms2.map_values(
            |m: Member| m.spec_declaration(),
        )[k] == ms1.map_values(|m: Member| m.spec_declaration())[perm[k]],
        forall|k: int| #![auto] 0 <= k < ms2.len() ==> ms2.map_values(
            |m: Member| m.spec_constructor_parameter(),
        )[k] == ms1.map_values(|m: Member| m.spec_constructor_parameter())[perm[k]],
        forall|k: int| #![auto] 0 <= k < ms2.len() ==> ms2.map_values(
            |m: Member| m.spec_database_schema(),
        )[k] == ms1.map_values(|m: Member| m.spec_database_schema())[perm[k]],
        spec_member_declarations(ms2) == concat_seqs(
            ms2.map_values(|m: Member| m.spec_declaration()),
        ),
        spec_create_table_columns(ms2) == join_seqs(
            ms2.map_values(|m: Member| m.spec_database_schema()),
            ", "@,
        ),
{
}

} // verus!
