//! Buck2 version detection from the `.buckversion` marker file.

use vstd::prelude::*;

use crate::strutil;

verus! {

/// The version named by a `.buckversion` file's content, or `"latest"`
/// when the file is absent.
pub open spec fn buck2_version_spec(content: Option<Seq<char>>) -> Seq<char> {
    match content {
        Some(c) => strutil::trim_spec(c),
        None => "latest"@,
    }
}

/// Reads the pinned Buck2 version out of the `.buckversion` content,
/// trimmed; `None` stands for a project without that file.
pub fn get_buck2_version(content: &Option<String>) -> (r: String)
    ensures
        r@ == buck2_version_spec(content.deep_view()),
{
    match content {
        Some(c) => strutil::trim(c.as_str()).to_owned(),
        None => "latest".to_owned(),
    }
}

} // verus!
