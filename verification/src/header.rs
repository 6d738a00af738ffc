//! The declaration emitter: composes, for each validated object type, its
//! public interface surface (storage fields, constructor, factory, identity
//! lookup, per-indexed-member lookups, getters and setter declarations) into
//! one declaration artifact. The artifact text is a pure, deterministic
//! function of the schema.

use vstd::prelude::*;

use crate::schema::Member;
use crate::schema::ObjectType;
use crate::schema::spec_first_type_error;
use crate::schema::lemma_first_type_error_skip;
use crate::text::concat_seqs;
use crate::text::concat_strings;
use crate::text::join_seqs;
use crate::text::join_strings;
use crate::text::views_of;

verus! {

/// The storage-field declarations of the members, in member order.
pub open spec fn spec_member_declarations(ms: Seq<Member>) -> Seq<char> {
    concat_seqs(ms.map_values(|m: Member| m.spec_declaration()))
}

/// The constructor parameter list: one parameter per member, in member order,
/// comma-separated.
pub open spec fn spec_constructor_parameters(ms: Seq<Member>) -> Seq<char> {
    join_seqs(ms.map_values(|m: Member| m.spec_constructor_parameter()), ", "@)
}

/// The two lookup declarations contributed by an indexed member: find-first
/// and find-all, each named from the member and parameterized by the member's
/// representation type. A non-indexed member contributes nothing.
pub open spec fn spec_find_by_member_frag(class: Seq<char>, m: Member) -> Seq<char> {
    if m.spec_index() {
        "        static std::optional<"@ + class + "> find_first_by_"@ + m.name@ + "("@
            + m.spec_constructor_parameter() + ");\n        static std::vector<"@ + class
            + "> find_all_by_"@ + m.name@ + "("@ + m.spec_constructor_parameter() + ");\n"@
    } else {
        Seq::empty()
    }
}

/// The lookup declarations of all indexed members, in member order.
pub open spec fn spec_find_by_member_declarations(class: Seq<char>, ms: Seq<Member>) -> Seq<char> {
    concat_seqs(ms.map_values(|m: Member| spec_find_by_member_frag(class, m)))
}

/// The getter declarations, one per member, in member order.
pub open spec fn spec_getter_declarations(ms: Seq<Member>) -> Seq<char> {
    concat_seqs(ms.map_values(|m: Member| m.spec_getter_declaration()))
}

/// The setter declarations, one per member, in member order.
pub open spec fn spec_setter_declarations(ms: Seq<Member>) -> Seq<char> {
    concat_seqs(ms.map_values(|m: Member| m.spec_setter_declaration()))
}

/// The doc comment emitted above a generated class, or nothing.
pub open spec fn spec_type_description(t: ObjectType) -> Seq<char> {
    match t.description {
        Some(d) => "    /// "@ + d@ + "\n"@,
        None => Seq::empty(),
    }
}

/// The whole declaration block of one object type: doc comment, class head,
/// storage fields, constructor, factory and lookup signatures, getters, and
/// setter declarations, in this fixed order.
pub open spec fn spec_declaration_block(t: ObjectType) -> Seq<char> {
    spec_type_description(t) + "    class "@ + t.name@ + " final : public genORM::object {\n"@
        + spec_member_declarations(t.members@) + "\n        explicit "@ + t.name@
        + "(genORM::database& __db, uint64_t __id, "@ + spec_constructor_parameters(t.members@)
        + ");\n\n    public:\n        static std::expected<"@ + t.name@
        + ", std::string> create(genORM::database& __db, "@ + spec_constructor_parameters(
        t.members@,
    ) + ");\n        static std::expected<"@ + t.name@
        + ", std::string> find_by_rowid(genORM::database& __db, uint64_t);\n"@
        + spec_find_by_member_declarations(t.name@, t.members@) + "\n"@
        + spec_getter_declarations(t.members@) + "\n"@ + spec_setter_declarations(t.members@)
        + "    };\n\n"@
}

/// The whole declaration artifact: the fixed banner, includes and namespace
/// head, one declaration block per object type in input order, and the
/// closing brace.
pub open spec fn spec_header_text(namespace: Seq<char>, ts: Seq<ObjectType>) -> Seq<char> {
    "// Auto-generated file. Changes will be overridden.\n#pragma once\n#include <genORM/genORM.h>\n#include <vector>\n#include <string>\n#include <optional>\n\nnamespace "@
        + namespace + " {\n"@ + concat_seqs(ts.map_values(|t: ObjectType| spec_declaration_block(t)))
        + "}\n"@
}

/// Collects each member's storage-field declaration, in order.
fn member_declaration_frags(ms: &Vec<Member>) -> (r: Vec<String>)
    ensures
        views_of(r@) == ms@.map_values(|m: Member| m.spec_declaration()),
{
    let mut out: Vec<String> = Vec::new();
    let n = ms.len();
    let mut i: usize = 0;
    while i < n
        invariant
            i <= n,
            n == ms@.len(),
            views_of(out@) == ms@.take(i as int).map_values(|m: Member| m.spec_declaration()),
        decreases n - i,
    {
        out.push(ms[i].format_declaration());
        proof {
            broadcast use vstd::prelude::Seq::lemma_push_map_commute;
            broadcast use vstd::prelude::Seq::lemma_map_take_succ;
            assert(views_of(out@) =~= ms@.take(i as int + 1).map_values(
                |m: Member| m.spec_declaration(),
            ));
        }
        i += 1;
    }
    proof {
        assert(ms@.take(n as int) =~= ms@);
    }
    out
}

/// Collects each member's constructor parameter, in order.
pub(crate) fn constructor_parameter_frags(ms: &Vec<Member>) -> (r: Vec<String>)
    ensures
        views_of(r@) == ms@.map_values(|m: Member| m.spec_constructor_parameter()),
{
    let mut out: Vec<String> = Vec::new();
    let n = ms.len();
    let mut i: usize = 0;
    while i < n
        invariant
            i <= n,
            n == ms@.len(),
            views_of(out@) == ms@.take(i as int).map_values(
                |m: Member| m.spec_constructor_parameter(),
            ),
        decreases n - i,
    {
        out.push(ms[i].format_constructor_parameter());
        proof {
            broadcast use vstd::prelude::Seq::lemma_push_map_commute;
            broadcast use vstd::prelude::Seq::lemma_map_take_succ;
            assert(views_of(out@) =~= ms@.take(i as int + 1).map_values(
                |m: Member| m.spec_constructor_parameter(),
            ));
        }
        i += 1;
    }
    proof {
        assert(ms@.take(n as int) =~= ms@);
    }
    out
}

/// Formats the lookup declarations an indexed member contributes.
fn format_find_by_member_frag(class: &str, m: &Member) -> (r: String)
    ensures
        r@ == spec_find_by_member_frag(class@, *m),
{
    if m.is_index() {
        let p = m.format_constructor_parameter();
        let mut s = String::from_str("        static std::optional<");
        s.append(class);
        s.append("> find_first_by_");
        s.append(m.name.as_str());
        s.append("(");
        s.append(p.as_str());
        s.append(");\n        static std::vector<");
        s.append(class);
        s.append("> find_all_by_");
        s.append(m.name.as_str());
        s.append("(");
        s.append(p.as_str());
        s.append(");\n");
        s
    } else {
        String::new()
    }
}

/// Collects the lookup declarations of the indexed members, in member order.
fn find_by_member_frags(class: &str, ms: &Vec<Member>) -> (r: Vec<String>)
    ensures
        views_of(r@) == ms@.map_values(|m: Member| spec_find_by_member_frag(class@, m)),
{
    let mut out: Vec<String> = Vec::new();
    let n = ms.len();
    let mut i: usize = 0;
    while i < n
        invariant
            i <= n,
            n == ms@.len(),
            views_of(out@) == ms@.take(i as int).map_values(
                |m: Member| spec_find_by_member_frag(class@, m),
            ),
        decreases n - i,
    {
        out.push(format_find_by_member_frag(class, &ms[i]));
        proof {
            broadcast use vstd::prelude::Seq::lemma_push_map_commute;
            broadcast use vstd::prelude::Seq::lemma_map_take_succ;
            assert(views_of(out@) =~= ms@.take(i as int + 1).map_values(
                |m: Member| spec_find_by_member_frag(class@, m),
            ));
        }
        i += 1;
    }
    proof {
        assert(ms@.take(n as int) =~= ms@);
    }
    out
}

/// Collects each member's getter declaration, in order.
fn getter_declaration_frags(ms: &Vec<Member>) -> (r: Vec<String>)
    ensures
        views_of(r@) == ms@.map_values(|m: Member| m.spec_getter_declaration()),
{
    let mut out: Vec<String> = Vec::new();
    let n = ms.len();
    let mut i: usize = 0;
    while i < n
        invariant
            i <= n,
            n == ms@.len(),
            views_of(out@) == ms@.take(i as int).map_values(
                |m: Member| m.spec_getter_declaration(),
            ),
        decreases n - i,
    {
        out.push(ms[i].format_getter_declaration());
        proof {
            broadcast use vstd::prelude::Seq::lemma_push_map_commute;
            broadcast use vstd::prelude::Seq::lemma_map_take_succ;
            assert(views_of(out@) =~= ms@.take(i as int + 1).map_values(
                |m: Member| m.spec_getter_declaration(),
            ));
        }
        i += 1;
    }
    proof {
        assert(ms@.take(n as int) =~= ms@);
    }
    out
}

/// Collects each member's setter declaration, in order.
fn setter_declaration_frags(ms: &Vec<Member>) -> (r: Vec<String>)
    ensures
        views_of(r@) == ms@.map_values(|m: Member| m.spec_setter_declaration()),
{
    let mut out: Vec<String> = Vec::new();
    let n = ms.len();
    let mut i: usize = 0;
    while i < n
        invariant
            i <= n,
            n == ms@.len(),
            views_of(out@) == ms@.take(i as int).map_values(
                |m: Member| m.spec_setter_declaration(),
            ),
        decreases n - i,
    {
        out.push(ms[i].format_setter_declaration());
        proof {
            broadcast use vstd::prelude::Seq::lemma_push_map_commute;
            broadcast use vstd::prelude::Seq::lemma_map_take_succ;
            assert(views_of(out@) =~= ms@.take(i as int + 1).map_values(
                |m: Member| m.spec_setter_declaration(),
            ));
        }
        i += 1;
    }
    proof {
        assert(ms@.take(n as int) =~= ms@);
    }
    out
}

/// Validates one object type and, when it passes, composes its declaration
/// block. A defective type yields the human-readable diagnostic of its first
/// defect instead, and nothing is composed for it.
pub fn format_declaration_block(t: &ObjectType) -> (r: Result<String, String>)
    ensures
        match r {
            Ok(s) => t.spec_error() is None && s@ == spec_declaration_block(*t),
            Err(m) => t.spec_error() matches Some(e) && m@ == e.spec_message(),
        },
{
    match t.validate() {
        Err(e) => {
            return Err(e.message());
        },
        Ok(()) => {},
    }
    let params = join_strings(&constructor_parameter_frags(&t.members), ", ");
    let mut s = String::new();
    match &t.description {
        Some(d) => {
            s.append("    /// ");
            s.append(d.as_str());
            s.append("\n");
        },
        None => {},
    }
    s.append("    class ");
    s.append(t.name.as_str());
    s.append(" final : public genORM::object {\n");
    let decls = concat_strings(&member_declaration_frags(&t.members));
    s.append(decls.as_str());
    s.append("\n        explicit ");
    s.append(t.name.as_str());
    s.append("(genORM::database& __db, uint64_t __id, ");
    s.append(params.as_str());
    s.append(");\n\n    public:\n        static std::expected<");
    s.append(t.name.as_str());
    s.append(", std::string> create(genORM::database& __db, ");
    s.append(params.as_str());
    s.append(");\n        static std::expected<");
    s.append(t.name.as_str());
    s.append(", std::string> find_by_rowid(genORM::database& __db, uint64_t);\n");
    let find_bys = concat_strings(&find_by_member_frags(t.name.as_str(), &t.members));
    s.append(find_bys.as_str());
    s.append("\n");
    let getters = concat_strings(&getter_declaration_frags(&t.members));
    s.append(getters.as_str());
    s.append("\n");
    let setters = concat_strings(&setter_declaration_frags(&t.members));
    s.append(setters.as_str());
    s.append("    };\n\n");
    proof {
        assert(s@ =~= spec_declaration_block(*t));
    }
    Ok(s)
}

/// Composes the declaration artifact for the whole schema: validates each
/// object type in order and, when all pass, returns the artifact text, which
/// is exactly the deterministic function of the schema that
/// `spec_header_text` states. On the first defective object type the
/// diagnostic of its first defect is returned and no text is produced.
pub fn generate_header(namespace: &str, object_types: &Vec<ObjectType>) -> (r: Result<
    String,
    String,
>)
    ensures
        match r {
            Ok(text) => spec_first_type_error(object_types@) is None && text@ == spec_header_text(
                namespace@,
                object_types@,
            ),
            Err(m) => spec_first_type_error(object_types@) matches Some(e) && m@
                == e.spec_message(),
        },
{
    let ghost blocks = object_types@.map_values(|t: ObjectType| spec_declaration_block(t));
    let mut body = String::from_str(
        "// Auto-generated file. Changes will be overridden.\n#pragma once\n#include <genORM/genORM.h>\n#include <vector>\n#include <string>\n#include <optional>\n\nnamespace ",
    );
    body.append(namespace);
    body.append(" {\n");
    let ghost head = body@;
    proof {
        assert(blocks.take(0) =~= Seq::<Seq<char>>::empty());
        assert(head + concat_seqs(blocks.take(0)) =~= head);
    }
    let n = object_types.len();
    let mut i: usize = 0;
    while i < n
        invariant
            i <= n,
            n == object_types@.len(),
            blocks == object_types@.map_values(|t: ObjectType| spec_declaration_block(t)),
            forall|j: int| 0 <= j < i ==> #[trigger] object_types@[j].spec_error() is None,
            body@ == head + concat_seqs(blocks.take(i as int)),
        decreases n - i,
    {
        match format_declaration_block(&object_types[i]) {
            Err(m) => {
                proof {
                    lemma_first_type_error_skip(object_types@, i as int);
                    assert(object_types@.skip(i as int)[0] == object_types@[i as int]);
                }
                return Err(m);
            },
            Ok(b) => {
                body.append(b.as_str());
                proof {
                    let cur = blocks.take(i as int + 1);
                    assert(cur.drop_last() =~= blocks.take(i as int));
                    assert(cur.last() == blocks[i as int]);
                    assert(body@ =~= head + concat_seqs(cur));
                }
            },
        }
        i += 1;
    }
    proof {
        lemma_first_type_error_skip(object_types@, n as int);
        assert(object_types@.skip(n as int) =~= Seq::<ObjectType>::empty());
        assert(blocks.take(n as int) =~= blocks);
    }
    body.append("}\n");
    proof {
        assert(body@ =~= spec_header_text(namespace@, object_types@));
    }
    Ok(body)
}

} // verus!
