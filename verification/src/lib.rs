//! Schema-driven generator for a thin object-relational mapping layer.
//!
//! Given a declarative schema of object types (named records with typed,
//! optionally nullable, optionally indexed members), the library validates the
//! schema and emits a matched pair of C++ source artifacts: a declaration
//! artifact (the public interface of each generated class) and a definition
//! artifact (constructor bodies, table and index bootstrap statements, insert
//! binding and row-to-object mapping). Emission is a pure, deterministic
//! function of the schema; reading the configuration and writing the artifacts
//! to disk are left to the caller.

pub mod emit;
pub mod header;
pub mod laws;
pub mod member;
pub mod schema;
pub mod source;
pub mod text;
pub mod util;

pub use emit::Artifacts;
pub use emit::generate;
pub use header::generate_header;
pub use schema::Config;
pub use schema::CxxOptions;
pub use schema::Kind;
pub use schema::Member;
pub use schema::ObjectType;
pub use schema::SchemaError;
pub use source::generate_source;
pub use util::calculate_output_dir;
