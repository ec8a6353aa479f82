//! Bazel version detection from the `.bazelversion` marker file.

use vstd::prelude::*;

use crate::strutil;

verus! {

/// The version named by a `.bazelversion` file's content, or `"latest"`
/// when the file is absent.
pub open spec fn bazel_version_spec(content: Option<Seq<char>>) -> Seq<char> {
    match content {
        Some(c) => strutil::trim_spec(c),
        None => "latest"@,
    }
}

/// Reads the pinned Bazel version out of the `.bazelversion` content,
/// trimmed; `None` stands for a project without that file.
pub fn get_bazel_version(content: &Option<String>) -> (r: String)
    ensures
        r@ == bazel_version_spec(content.deep_view()),
{
    match content {
        Some(c) => strutil::trim(c.as_str()).to_owned(),
        None => "latest".to_owned(),
    }
}

} // verus!
