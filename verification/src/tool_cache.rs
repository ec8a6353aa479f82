//! The content-keyed local cache of acquired tool binaries.
//!
//! A cache maps a (tool name, version) pair to a deterministic path under
//! its root: `<root>/<tool>/<version>/<tool>`. Computing that path is pure;
//! only the existence check touches the filesystem.

use vstd::prelude::*;

verus! {

/// The on-disk store of previously acquired tool binaries.
pub struct ToolCache {
    base_dir: String,
}

impl View for ToolCache {
    type V = Seq<char>;

    closed spec fn view(&self) -> Seq<char> {
        self.base_dir@
    }
}

/// The path a cache rooted at `base` uses for `tool` at `version`.
pub open spec fn tool_path_spec(base: Seq<char>, tool: Seq<char>, version: Seq<char>) -> Seq<
    char,
> {
    base + "/"@ + tool + "/"@ + version + "/"@ + tool
}

/// Relies on `std::path::Path::exists`: whether the path names an existing
/// filesystem entity. The answer depends on the machine's disk, so nothing
/// further is promised of it.
#[verifier::external_body]
fn path_exists(p: &str) -> bool {
    std::path::Path::new(p).exists()
}

impl ToolCache {
    /// A cache rooted at the given directory.
    pub fn with_dir(base_dir: String) -> (r: ToolCache)
        ensures
            r@ == base_dir@,
    {
        ToolCache { base_dir }
    }

    /// The cache's root directory.
    pub fn cache_dir(&self) -> (r: &str)
        ensures
            r@ == self@,
    {
        self.base_dir.as_str()
    }

    /// The deterministic path for `tool_name` at `version`, with no I/O.
    pub fn get_tool_path(&self, tool_name: &str, version: &str) -> (r: String)
        ensures
            r@ == tool_path_spec(self@, tool_name@, version@),
    {
        let mut p = self.base_dir.clone();
        p.append("/");
        p.append(tool_name);
        p.append("/");
        p.append(version);
        p.append("/");
        p.append(tool_name);
        p
    }

    /// Whether the entry's path exists on disk. No content validation is
    /// performed: a partially written file counts as installed.
    pub fn is_installed(&self, tool_name: &str, version: &str) -> bool {
        let p = self.get_tool_path(tool_name, version);
        path_exists(p.as_str())
    }
}

/// Law: the cache path is a pure function of the cache root and the
/// (tool, version) pair, so identical inputs always yield identical paths.
pub proof fn lemma_tool_path_deterministic(
    c1: ToolCache,
    c2: ToolCache,
    tool: Seq<char>,
    version: Seq<char>,
)
    requires
        c1@ == c2@,
    ensures
        tool_path_spec(c1@, tool, version) == tool_path_spec(c2@, tool, version),
{
}

} // verus!
