//! Output-directory resolution: the one recognized root token and the
//! directory appended to the resolved root.

use vstd::prelude::*;

verus! {

/// The resolved root directory: nothing resolves to the empty prefix, the
/// one recognized token resolves to the fixed placeholder, and any other
/// token resolves to no directory at all.
pub open spec fn spec_root_dir(root: Option<String>) -> Option<Seq<char>> {
    match root {
        None => Some(Seq::empty()),
        Some(r) => if r@ == "repository-root"@ {
            Some("./"@)
        } else {
            None
        },
    }
}

/// The resolved output directory: the resolved root followed by the optional
/// directory, or nothing when the root token is unrecognized.
pub open spec fn spec_output_dir(root: Option<String>, dir: Option<String>) -> Option<Seq<char>> {
    match spec_root_dir(root) {
        None => None,
        Some(rd) => match dir {
            Some(d) => Some(rd + d@),
            None => Some(rd),
        },
    }
}

/// Resolves the output directory from the optional root token and the
/// optional directory. Only the one recognized root token is accepted, and it
/// resolves to a fixed placeholder; any other token is rejected. The
/// directory, when present, is appended to the resolved root.
pub fn calculate_output_dir(root: &Option<String>, dir: &Option<String>) -> (r: Result<
    String,
    &'static str,
>)
    ensures
        match r {
            Ok(d) => spec_output_dir(*root, *dir) == Some(d@),
            Err(m) => spec_output_dir(*root, *dir) is None && m@ == "Unknown root"@,
        },
{
    let mut root_dir = String::new();
    match root {
        Some(r) => {
            if *r == String::from_str("repository-root") {
                root_dir = String::from_str("./");
            } else {
                return Err("Unknown root");
            }
        },
        None => {},
    }
    match dir {
        Some(d) => {
            root_dir.append(d.as_str());
            Ok(root_dir)
        },
        None => Ok(root_dir),
    }
}

} // verus!
