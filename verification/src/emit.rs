//! The top of the generation engine: validates the whole schema through the
//! declaration emitter, then composes the matched pair of artifacts and the
//! file names they are to be written under. Writing them to disk is the
//! caller's task; note that the pair is not transactional — a caller that
//! persists the declaration artifact and then fails to persist the definition
//! artifact leaves the former behind.

use vstd::prelude::*;

use crate::header::generate_header;
use crate::header::spec_header_text;
use crate::schema::CxxOptions;
use crate::schema::ObjectType;
use crate::schema::spec_first_type_error;
use crate::source::generate_source;
use crate::source::spec_source_text;

verus! {

/// The matched pair of generated artifacts, each with the path it is to be
/// written under: the resolved output directory followed by the file prefix
/// and the artifact's extension.
#[derive(Debug)]
pub struct Artifacts {
    pub header_path: String,
    pub header_text: String,
    pub source_path: String,
    pub source_text: String,
}

/// Generates the matched pair of artifacts for the whole schema. Every object
/// type is validated before any text is composed; on the first defect the
/// human-readable diagnostic is returned and nothing is generated. On success
/// both texts are exactly the deterministic functions of the schema stated by
/// `spec_header_text` and `spec_source_text`, and the paths are the output
/// directory followed by the prefixed artifact names.
pub fn generate(output_dir: String, cxx_options: &CxxOptions, object_types: &Vec<ObjectType>) -> (r:
    Result<Artifacts, String>)
    ensures
        match r {
            Ok(a) => {
                &&& spec_first_type_error(object_types@) is None
                &&& a.header_path@ == output_dir@ + cxx_options.file_prefix@ + ".orm.h"@
                &&& a.header_text@ == spec_header_text(cxx_options.namespace@, object_types@)
                &&& a.source_path@ == output_dir@ + cxx_options.file_prefix@ + ".orm.cc"@
                &&& a.source_text@ == spec_source_text(
                    cxx_options.file_prefix@,
                    cxx_options.namespace@,
                    object_types@,
                )
            },
            Err(m) => spec_first_type_error(object_types@) matches Some(e) && m@
                == e.spec_message(),
        },
{
    let header_text = match generate_header(cxx_options.namespace.as_str(), object_types) {
        Ok(text) => text,
        Err(m) => {
            return Err(m);
        },
    };
    let source_text = generate_source(
        cxx_options.file_prefix.as_str(),
        cxx_options.namespace.as_str(),
        object_types,
    );
    let mut header_path = output_dir.clone();
    header_path.append(cxx_options.file_prefix.as_str());
    header_path.append(".orm.h");
    let mut source_path = output_dir;
    source_path.append(cxx_options.file_prefix.as_str());
    source_path.append(".orm.cc");
    Ok(Artifacts { header_path, header_text, source_path, source_text })
}

} // verus!
