//! The schema model: object types, members, member kinds, and the validator
//! that rejects schema/kind combinations the generator cannot represent.

use vstd::prelude::*;

verus! {

/// The closed set of scalar kinds a member may have.
#[derive(Clone, Copy, PartialEq, Eq, Structural, Debug)]
pub enum Kind {
    Int32,
    Int64,
    ByteArray,
}

/// One typed, possibly nullable, possibly indexed field of an object type.
///
/// `type_` holds the kind as the schema spells it; `kind_of` maps the three
/// recognized spellings to a `Kind`.
#[derive(Clone, Debug)]
pub struct Member {
    pub name: String,
    pub description: Option<String>,
    pub type_: String,
    pub allow_null: Option<bool>,
    pub index: Option<bool>,
}

/// A named record definition that becomes one generated class.
/// Member order is significant: it fixes storage-field order,
/// constructor-parameter order, and column order.
#[derive(Clone, Debug)]
pub struct ObjectType {
    pub name: String,
    pub description: Option<String>,
    pub members: Vec<Member>,
}

/// Target options for the C++ emitters.
#[derive(Clone, Debug)]
pub struct CxxOptions {
    pub file_prefix: String,
    pub namespace: String,
    pub output_dir_root: Option<String>,
    pub output_dir: Option<String>,
}

/// One parsed configuration document: the declared version, the optional
/// target options, and the object types in declaration order.
#[derive(Clone, Debug)]
pub struct Config {
    pub config_version: u32,
    pub cxx_options: Option<CxxOptions>,
    pub object_types: Vec<ObjectType>,
}

/// Why the validator rejected a schema.
#[derive(Clone, Debug)]
pub enum SchemaError {
    /// An object type has no members; carries the object type's name.
    EmptyMembers { owner_name: String },
    /// A member's name is empty.
    EmptyName,
    /// A member's kind is none of the recognized spellings; carries the
    /// spelling found.
    UnknownKind { kind: String },
    /// A byte-array member claims to be nullable.
    InvalidNullability,
    /// A byte-array member claims to be indexed.
    InvalidIndex,
}

/// The kind named by a spelling, if it is one of the three recognized ones.
pub open spec fn spec_kind_of(t: Seq<char>) -> Option<Kind> {
    if t == "INT32"@ {
        Some(Kind::Int32)
    } else if t == "INT64"@ {
        Some(Kind::Int64)
    } else if t == "BYTEARRAY"@ {
        Some(Kind::ByteArray)
    } else {
        None
    }
}

impl Member {
    /// Whether the member is nullable; an absent flag means not nullable.
    pub open spec fn spec_allow_null(self) -> bool {
        self.allow_null == Some(true)
    }

    /// Whether the member is indexed; an absent flag means not indexed.
    pub open spec fn spec_index(self) -> bool {
        self.index == Some(true)
    }

    /// The member's kind, if its spelling is recognized.
    pub open spec fn spec_kind(self) -> Option<Kind> {
        spec_kind_of(self.type_@)
    }

    /// The first defect of this member, checked in order: empty name, unknown
    /// kind, then the byte-array restrictions (nullability before index).
    pub open spec fn spec_error(self) -> Option<SchemaError> {
        if self.name@.len() == 0 {
            Some(SchemaError::EmptyName)
        } else {
            match spec_kind_of(self.type_@) {
                None => Some(SchemaError::UnknownKind { kind: self.type_ }),
                Some(Kind::ByteArray) => {
                    if self.spec_allow_null() {
                        Some(SchemaError::InvalidNullability)
                    } else if self.spec_index() {
                        Some(SchemaError::InvalidIndex)
                    } else {
                        None
                    }
                },
                Some(_) => None,
            }
        }
    }

    pub fn is_allow_null(&self) -> (r: bool)
        ensures
            r == self.spec_allow_null(),
    {
        match self.allow_null {
            Some(b) => b,
            None => false,
        }
    }

    pub fn is_index(&self) -> (r: bool)
        ensures
            r == self.spec_index(),
    {
        match self.index {
            Some(b) => b,
            None => false,
        }
    }

    /// Maps the kind spelling to its `Kind`, or `None` if unrecognized.
    pub fn kind(&self) -> (k: Option<Kind>)
        ensures
            k == self.spec_kind(),
    {
        if self.type_ == String::from_str("INT32") {
            Some(Kind::Int32)
        } else if self.type_ == String::from_str("INT64") {
            Some(Kind::Int64)
        } else if self.type_ == String::from_str("BYTEARRAY") {
            Some(Kind::ByteArray)
        } else {
            None
        }
    }

    /// Checks this member against the structural and kind-specific invariants,
    /// returning its first defect: `EmptyName` exactly when the name is empty;
    /// otherwise `UnknownKind` exactly when the kind spelling is unrecognized;
    /// otherwise, for a byte array, `InvalidNullability` when nullable and
    /// `InvalidIndex` when indexed. Integer members are never rejected.
    pub fn validate(&self) -> (r: Result<(), SchemaError>)
        ensures
            r is Ok <==> self.spec_error() is None,
            r matches Err(e) ==> Some(e) == self.spec_error(),
    {
        if self.name.as_str().is_empty() {
            return Err(SchemaError::EmptyName);
        }
        match self.kind() {
            None => Err(SchemaError::UnknownKind { kind: self.type_.clone() }),
            Some(Kind::ByteArray) => {
                if self.is_allow_null() {
                    Err(SchemaError::InvalidNullability)
                } else if self.is_index() {
                    Err(SchemaError::InvalidIndex)
                } else {
                    Ok(())
                }
            },
            Some(_) => Ok(()),
        }
    }
}

/// The first defect among `ms`, members checked front to back.
pub open spec fn spec_first_member_error(ms: Seq<Member>) -> Option<SchemaError>
    decreases ms.len(),
{
    if ms.len() == 0 {
        None
    } else if ms[0].spec_error() is Some {
        ms[0].spec_error()
    } else {
        spec_first_member_error(ms.drop_first())
    }
}

/// If the first `i` members of `ms` are defect-free, the first defect of `ms`
/// is the first defect of the rest.
pub proof fn lemma_first_member_error_skip(ms: Seq<Member>, i: int)
    requires
        0 <= i <= ms.len(),
        forall|j: int| 0 <= j < i ==> #[trigger] ms[j].spec_error() is None,
    ensures
        spec_first_member_error(ms) == spec_first_member_error(ms.skip(i)),
    decreases i,
{
    if i == 0 {
        assert(ms.skip(0) =~= ms);
    } else {
        assert(ms[0].spec_error() is None);
        lemma_first_member_error_skip(ms.drop_first(), i - 1);
        assert(ms.drop_first().skip(i - 1) =~= ms.skip(i));
    }
}

impl ObjectType {
    /// The first defect of this object type: `EmptyMembers` when it has no
    /// members, else the first defect among its members in order.
    pub open spec fn spec_error(self) -> Option<SchemaError> {
        if self.members@.len() == 0 {
            Some(SchemaError::EmptyMembers { owner_name: self.name })
        } else {
            spec_first_member_error(self.members@)
        }
    }

    /// Checks the object type and every member, in order, against the schema
    /// invariants; returns the first defect found, and `Ok` exactly when there
    /// is none.
    pub fn validate(&self) -> (r: Result<(), SchemaError>)
        ensures
            r is Ok <==> self.spec_error() is None,
            r matches Err(e) ==> Some(e) == self.spec_error(),
    {
        if self.members.len() == 0 {
            return Err(SchemaError::EmptyMembers { owner_name: self.name.clone() });
        }
        let n = self.members.len();
        let mut i: usize = 0;
        while i < n
            invariant
                i <= n,
                n == self.members@.len(),
                forall|j: int| 0 <= j < i ==> #[trigger] self.members@[j].spec_error() is None,
            decreases n - i,
        {
            match self.members[i].validate() {
                Err(e) => {
                    proof {
                        lemma_first_member_error_skip(self.members@, i as int);
                        assert(self.members@.skip(i as int)[0] == self.members@[i as int]);
                    }
                    return Err(e);
                },
                Ok(()) => {},
            }
            i += 1;
        }
        proof {
            lemma_first_member_error_skip(self.members@, n as int);
            assert(self.members@.skip(n as int) =~= Seq::<Member>::empty());
        }
        Ok(())
    }
}

/// Whether a configuration document's version is the one this generator
/// understands. Any other version draws a warning from the caller; generation
/// still proceeds.
pub fn is_supported_version(v: u32) -> (r: bool)
    ensures
        r == (v == 1u32),
{
    v == 1
}

/// The first defect among `ts`, object types checked front to back.
pub open spec fn spec_first_type_error(ts: Seq<ObjectType>) -> Option<SchemaError>
    decreases ts.len(),
{
    if ts.len() == 0 {
        None
    } else if ts[0].spec_error() is Some {
        ts[0].spec_error()
    } else {
        spec_first_type_error(ts.drop_first())
    }
}

/// If the first `i` object types of `ts` are defect-free, the first defect of
/// `ts` is the first defect of the rest.
pub proof fn lemma_first_type_error_skip(ts: Seq<ObjectType>, i: int)
    requires
        0 <= i <= ts.len(),
        forall|j: int| 0 <= j < i ==> #[trigger] ts[j].spec_error() is None,
    ensures
        spec_first_type_error(ts) == spec_first_type_error(ts.skip(i)),
    decreases i,
{
    if i == 0 {
        assert(ts.skip(0) =~= ts);
    } else {
        assert(ts[0].spec_error() is None);
        lemma_first_type_error_skip(ts.drop_first(), i - 1);
        assert(ts.drop_first().skip(i - 1) =~= ts.skip(i));
    }
}

impl SchemaError {
    /// The human-readable diagnostic for this defect.
    pub open spec fn spec_message(self) -> Seq<char> {
        match self {
            SchemaError::EmptyMembers { owner_name } => "Object type has no members: "@ + owner_name@,
            SchemaError::EmptyName => "Member name is empty"@,
            SchemaError::UnknownKind { kind } => "Unexpected type: "@ + kind@,
            SchemaError::InvalidNullability => "Bytearray cannot be null"@,
            SchemaError::InvalidIndex => "Bytearray cannot be an index"@,
        }
    }

    /// Renders the defect as its human-readable diagnostic.
    pub fn message(&self) -> (r: String)
        ensures
            r@ == self.spec_message(),
    {
        match self {
            SchemaError::EmptyMembers { owner_name } => {
                let mut s = String::from_str("Object type has no members: ");
                s.append(owner_name.as_str());
                s
            },
            SchemaError::EmptyName => String::from_str("Member name is empty"),
            SchemaError::UnknownKind { kind } => {
                let mut s = String::from_str("Unexpected type: ");
                s.append(kind.as_str());
                s
            },
            SchemaError::InvalidNullability => String::from_str("Bytearray cannot be null"),
            SchemaError::InvalidIndex => String::from_str("Bytearray cannot be an index"),
        }
    }
}

} // verus!
