//! Node version detection from `.nvmrc` and `.node-version`.

use vstd::prelude::*;

use crate::strutil;

verus! {

/// A version string with a single leading `v` removed.
pub open spec fn normalize_version_spec(v: Seq<char>) -> Seq<char> {
    if v.len() > 0 && v[0] == 'v' {
        v.drop_first()
    } else {
        v
    }
}

/// The Node version selected from the two candidate version files:
/// `.nvmrc` wins over `.node-version`; both are trimmed and a leading `v`
/// is dropped; `"latest"` when neither file is present.
pub open spec fn node_version_spec(
    nvmrc: Option<Seq<char>>,
    node_version: Option<Seq<char>>,
) -> Seq<char> {
    match nvmrc {
        Some(c) => normalize_version_spec(strutil::trim_spec(c)),
        None => match node_version {
            Some(c) => normalize_version_spec(strutil::trim_spec(c)),
            None => "latest"@,
        },
    }
}

/// Removes a leading `v` from a version string, if present.
pub fn normalize_version(version: &str) -> (r: String)
    ensures
        r@ == normalize_version_spec(version@),
{
    let n: usize = version.unicode_len();
    if n > 0 && version.get_char(0) == 'v' {
        proof {
            assert(version@.subrange(1, n as int) =~= version@.drop_first());
        }
        version.substring_char(1, n).to_owned()
    } else {
        version.to_owned()
    }
}

/// Reads the Node version from the contents of `.nvmrc` (preferred) or
/// `.node-version`; `None` stands for an absent file.
pub fn get_node_version(nvmrc: &Option<String>, node_version: &Option<String>) -> (r: String)
    ensures
        r@ == node_version_spec(nvmrc.deep_view(), node_version.deep_view()),
{
    match nvmrc {
        Some(c) => normalize_version(strutil::trim(c.as_str())),
        None => match node_version {
            Some(c) => normalize_version(strutil::trim(c.as_str())),
            None => "latest".to_owned(),
        },
    }
}

} // verus!
