//! The provider abstraction: acquiring a tool binary from the host's
//! search path, from a templated download URL, or from a source build, and
//! the ordered fallback chain over those strategies.
//!
//! Everything that decides is pure and fully specified here; the caller
//! performs the filesystem, network and subprocess work each plan names
//! and feeds the outcome back in.

use vstd::prelude::*;

use sha2::Digest;

use crate::strutil::{
    ascii_ci_eq, brace_free, braces_open_one_of, ends_with, eq_ignore_ascii_case,
    lemma_double_replace_leaves_no_needle, match_at, placeholder_shaped, replace_all,
    replace_spec, starts_with, strip_reps, strip_reps_spec,
};
use crate::tool_cache::{tool_path_spec, ToolCache};

verus! {

/// Why a tool could not be provided.
#[derive(Debug, Clone, PartialEq, Eq)]
pub enum ToolError {
    /// No provider produced a usable path for the named tool.
    NotFound(String),
    /// A local filesystem failure, with its message.
    Io(String),
    /// A transport-level failure reaching a remote host, with its message.
    Network(String),
    /// A named strategy failed for a domain reason.
    StrategyFailure(String, String),
}

/// The mathematical shape of a `ToolError`.
pub enum ToolErrorV {
    NotFound(Seq<char>),
    Io(Seq<char>),
    Network(Seq<char>),
    StrategyFailure(Seq<char>, Seq<char>),
}

impl View for ToolError {
    type V = ToolErrorV;

    open spec fn view(&self) -> ToolErrorV {
        match self {
            ToolError::NotFound(s) => ToolErrorV::NotFound(s@),
            ToolError::Io(s) => ToolErrorV::Io(s@),
            ToolError::Network(s) => ToolErrorV::Network(s@),
            ToolError::StrategyFailure(s, m) => ToolErrorV::StrategyFailure(s@, m@),
        }
    }
}

impl ToolError {
    /// A copy with the same shape and text.
    pub fn duplicate(&self) -> (r: ToolError)
        ensures
            r@ == self@,
    {
        match self {
            ToolError::NotFound(s) => ToolError::NotFound(s.clone()),
            ToolError::Io(s) => ToolError::Io(s.clone()),
            ToolError::Network(s) => ToolError::Network(s.clone()),
            ToolError::StrategyFailure(s, m) => ToolError::StrategyFailure(s.clone(), m.clone()),
        }
    }
}

/// The view of a provider outcome: a path or an error.
pub open spec fn outcome_view(r: Result<String, ToolError>) -> Result<Seq<char>, ToolErrorV> {
    match r {
        Ok(p) => Ok(p@),
        Err(e) => Err(e@),
    }
}

/// Per-resolution shared state: the offline flag and the cache to install
/// into.
pub struct ToolContext<'a> {
    /// Whether network access is forbidden for this resolution.
    pub offline: bool,
    /// The cache that acquired binaries are installed into.
    pub cache: &'a ToolCache,
}

/// The four platform identifiers a download URL may select.
#[derive(Debug, Clone, Copy, PartialEq, Eq, Structural)]
pub enum Platform {
    /// macOS on ARM64.
    MacosAarch64,
    /// macOS on x86-64.
    MacosX64,
    /// Windows on x86-64.
    WindowsX64,
    /// The fallback covering Linux and all other targets.
    LinuxX64,
}

/// The identifier substituted for `{platform}` on each platform.
pub open spec fn platform_ident_spec(p: Platform) -> Seq<char> {
    match p {
        Platform::MacosAarch64 => "aarch64-apple-darwin"@,
        Platform::MacosX64 => "x86_64-apple-darwin"@,
        Platform::WindowsX64 => "x86_64-pc-windows-msvc"@,
        Platform::LinuxX64 => "x86_64-unknown-linux-musl"@,
    }
}

impl Platform {
    /// The identifier substituted for `{platform}` on this platform.
    pub fn identifier(&self) -> (r: &'static str)
        ensures
            r@ == platform_ident_spec(*self),
    {
        match self {
            Platform::MacosAarch64 => "aarch64-apple-darwin",
            Platform::MacosX64 => "x86_64-apple-darwin",
            Platform::WindowsX64 => "x86_64-pc-windows-msvc",
            Platform::LinuxX64 => "x86_64-unknown-linux-musl",
        }
    }
}

/// Searches the system path for the tool; the requested version is never
/// checked against the host copy.
#[derive(Debug, Clone, Copy, PartialEq, Eq, Structural)]
pub struct HostProvider;

/// The outcome the host strategy maps a lookup answer to.
pub open spec fn host_outcome_spec(tool: Seq<char>, found: Option<Seq<char>>) -> Result<
    Seq<char>,
    ToolErrorV,
> {
    match found {
        Some(p) => Ok(p),
        None => Err(ToolErrorV::NotFound(tool)),
    }
}

impl HostProvider {
    /// Turns the host search-path answer for `tool` into the strategy's
    /// outcome: the found path, or `NotFound` naming the tool.
    pub fn evaluate(tool: &str, found: Option<String>) -> (r: Result<String, ToolError>)
        ensures
            outcome_view(r) == host_outcome_spec(tool@, found.deep_view()),
    {
        match found {
            Some(p) => Ok(p),
            None => Err(ToolError::NotFound(tool.to_owned())),
        }
    }
}

/// Downloads the tool from a templated URL, optionally verifying a
/// declared SHA-256 digest.
#[derive(Debug, Clone, PartialEq, Eq)]
pub struct UrlProvider {
    /// The URL template, with `{version}` and `{platform}` placeholders.
    pub url_template: String,
    /// The expected artifact digest, as hex, if one was declared.
    pub sha256: Option<String>,
}

/// The mathematical shape of a `UrlProvider`.
pub struct UrlProviderV {
    pub url_template: Seq<char>,
    pub sha256: Option<Seq<char>>,
}

impl View for UrlProvider {
    type V = UrlProviderV;

    open spec fn view(&self) -> UrlProviderV {
        UrlProviderV { url_template: self.url_template@, sha256: self.sha256.deep_view() }
    }
}

/// The URL a template resolves to: `{version}` replaced by the requested
/// version, then `{platform}` by the platform identifier.
pub open spec fn resolve_url_spec(template: Seq<char>, version: Seq<char>, p: Platform) -> Seq<
    char,
> {
    replace_spec(
        replace_spec(template, "{version}"@, version),
        "{platform}"@,
        platform_ident_spec(p),
    )
}

/// What the URL strategy decides to do, before any outside work.
#[derive(Debug, Clone, PartialEq, Eq)]
pub enum UrlPlan {
    /// The cache already holds the entry at this path: use it.
    UseCached(String),
    /// The strategy fails before any fetch.
    Fail(ToolError),
    /// Copy the named local file to the cache path.
    CopyLocal { source: String, dest: String },
    /// Fetch the URL into the cache path, decompressing a zstd stream when
    /// the URL names one.
    Download { url: String, dest: String, decompress: bool },
}

/// The mathematical shape of a `UrlPlan`.
pub enum UrlPlanV {
    UseCached(Seq<char>),
    Fail(ToolErrorV),
    CopyLocal { source: Seq<char>, dest: Seq<char> },
    Download { url: Seq<char>, dest: Seq<char>, decompress: bool },
}

impl View for UrlPlan {
    type V = UrlPlanV;

    open spec fn view(&self) -> UrlPlanV {
        match self {
            UrlPlan::UseCached(p) => UrlPlanV::UseCached(p@),
            UrlPlan::Fail(e) => UrlPlanV::Fail(e@),
            UrlPlan::CopyLocal { source, dest } => UrlPlanV::CopyLocal {
                source: source@,
                dest: dest@,
            },
            UrlPlan::Download { url, dest, decompress } => UrlPlanV::Download {
                url: url@,
                dest: dest@,
                decompress: *decompress,
            },
        }
    }
}

/// The failure the URL strategy reports in offline mode for a non-local
/// URL.
pub open spec fn offline_failure_spec() -> ToolErrorV {
    ToolErrorV::StrategyFailure("UrlProvider"@, "Offline mode: cannot download from network"@)
}

/// The plan the URL strategy makes: the cached path when the entry is
/// installed; otherwise the resolved URL, rejected outright in offline
/// mode unless it uses the local-file scheme, and fetched into the cache
/// path otherwise.
pub open spec fn url_plan_spec(
    p: UrlProviderV,
    tool: Seq<char>,
    version: Seq<char>,
    offline: bool,
    installed: bool,
    base: Seq<char>,
    platform: Platform,
) -> UrlPlanV {
    if installed {
        UrlPlanV::UseCached(tool_path_spec(base, tool, version))
    } else {
        let url = resolve_url_spec(p.url_template, version, platform);
        if offline && !match_at(url, "file://"@, 0) {
            UrlPlanV::Fail(offline_failure_spec())
        } else if match_at(url, "file://"@, 0) {
            UrlPlanV::CopyLocal {
                source: strip_reps_spec(url, "file://"@),
                dest: tool_path_spec(base, tool, version),
            }
        } else {
            UrlPlanV::Download {
                url: url,
                dest: tool_path_spec(base, tool, version),
                decompress: ".zst"@.len() <= url.len() && match_at(
                    url,
                    ".zst"@,
                    url.len() - ".zst"@.len(),
                ),
            }
        }
    }
}

impl UrlProvider {
    /// Resolves the URL template for `version` on `platform`.
    pub fn resolve_url(&self, version: &str, platform: Platform) -> (r: String)
        ensures
            r@ == resolve_url_spec(self@.url_template, version@, platform),
    {
        proof {
            reveal_strlit("{version}");
            reveal_strlit("{platform}");
        }
        let step = replace_all(self.url_template.as_str(), "{version}", version);
        replace_all(step.as_str(), "{platform}", platform.identifier())
    }

    /// Decides what the URL strategy does for `tool` at `version`, given
    /// whether the cache already holds the entry.
    pub fn plan(
        &self,
        tool: &str,
        version: &str,
        context: &ToolContext,
        installed: bool,
        platform: Platform,
    ) -> (r: UrlPlan)
        ensures
            r@ == url_plan_spec(
                self@,
                tool@,
                version@,
                context.offline,
                installed,
                context.cache@,
                platform,
            ),
    {
        if installed {
            return UrlPlan::UseCached(context.cache.get_tool_path(tool, version));
        }
        let url = self.resolve_url(version, platform);
        proof {
            reveal_strlit("file://");
        }
        let local = starts_with(url.as_str(), "file://");
        if context.offline && !local {
            return UrlPlan::Fail(
                ToolError::StrategyFailure(
                    "UrlProvider".to_owned(),
                    "Offline mode: cannot download from network".to_owned(),
                ),
            );
        }
        if local {
            let source = strip_reps(url.as_str(), "file://").to_owned();
            UrlPlan::CopyLocal { source, dest: context.cache.get_tool_path(tool, version) }
        } else {
            let decompress = ends_with(url.as_str(), ".zst");
            UrlPlan::Download {
                url: url,
                dest: context.cache.get_tool_path(tool, version),
                decompress,
            }
        }
    }

    /// The strategy failure the URL strategy wraps a fetch or install
    /// error message in.
    pub fn failure(message: String) -> (r: ToolError)
        ensures
            r@ == ToolErrorV::StrategyFailure("UrlProvider"@, message@),
    {
        ToolError::StrategyFailure("UrlProvider".to_owned(), message)
    }
}

/// The name for what SHA-256 returns: a function of the input bytes
/// alone.
pub uninterp spec fn sha256_of(data: Seq<u8>) -> Seq<u8>;

/// The lowercase hex digit character for `d`.
pub open spec fn hex_digit(d: int) -> char {
    if d == 0 {
        '0'
    } else if d == 1 {
        '1'
    } else if d == 2 {
        '2'
    } else if d == 3 {
        '3'
    } else if d == 4 {
        '4'
    } else if d == 5 {
        '5'
    } else if d == 6 {
        '6'
    } else if d == 7 {
        '7'
    } else if d == 8 {
        '8'
    } else if d == 9 {
        '9'
    } else if d == 10 {
        'a'
    } else if d == 11 {
        'b'
    } else if d == 12 {
        'c'
    } else if d == 13 {
        'd'
    } else if d == 14 {
        'e'
    } else {
        'f'
    }
}

/// The lowercase hex rendering of a byte sequence, two digits per byte.
pub open spec fn hex_of(bytes: Seq<u8>) -> Seq<char>
    decreases bytes.len(),
{
    if bytes.len() == 0 {
        Seq::empty()
    } else {
        seq![hex_digit(bytes[0] as int / 16), hex_digit(bytes[0] as int % 16)] + hex_of(
            bytes.drop_first(),
        )
    }
}

/// Relies on `sha2::Sha256` (through `digest::Digest::digest`): the
/// SHA-256 digest of the byte slice, a 32-byte function of the bytes
/// alone.
#[verifier::external_body]
fn sha256_digest(data: &[u8]) -> (r: Vec<u8>)
    ensures
        r@ == sha256_of(data@),
        r@.len() == 32,
{
    sha2::Sha256::digest(data).to_vec()
}

/// Relies on `hex::encode`: the lowercase hex encoding of the bytes, two
/// digits per byte.
#[verifier::external_body]
fn hex_encode(data: &[u8]) -> (r: String)
    ensures
        r@ == hex_of(data@),
{
    hex::encode(data)
}

/// The message reported for a digest mismatch.
pub open spec fn checksum_mismatch_msg(expected: Seq<char>, got: Seq<char>) -> Seq<char> {
    "Checksum mismatch: expected "@ + expected + ", got "@ + got
}

/// Whether `data` satisfies the declared digest `expected` (hex, compared
/// ignoring ASCII case).
pub open spec fn checksum_ok_spec(expected: Seq<char>, data: Seq<u8>) -> bool {
    ascii_ci_eq(hex_of(sha256_of(data)), expected)
}

impl UrlProvider {
    /// Verifies the fetched artifact bytes against the declared digest:
    /// success when none was declared or the digest matches, and a
    /// strategy failure naming the mismatch otherwise.
    pub fn verify_artifact(&self, data: &[u8]) -> (r: Result<(), ToolError>)
        ensures
            match self@.sha256 {
                None => r is Ok,
                Some(expected) => if checksum_ok_spec(expected, data@) {
                    r is Ok
                } else {
                    r matches Err(e) && e@ == ToolErrorV::StrategyFailure(
                        "UrlProvider"@,
                        checksum_mismatch_msg(expected, hex_of(sha256_of(data@))),
                    )
                },
            },
    {
        let expected: &String = match &self.sha256 {
            None => { return Ok(()); },
            Some(e) => e,
        };
        let digest = sha256_digest(data);
        let hash = hex_encode(digest.as_slice());
        if eq_ignore_ascii_case(hash.as_str(), expected.as_str()) {
            Ok(())
        } else {
            let mut msg = "Checksum mismatch: expected ".to_owned();
            msg.append(expected.as_str());
            msg.append(", got ");
            msg.append(hash.as_str());
            proof {
                assert(msg@ =~= checksum_mismatch_msg(expected@, hex_of(sha256_of(data@))));
            }
            Err(ToolError::StrategyFailure("UrlProvider".to_owned(), msg))
        }
    }
}

/// Builds the tool from source with the local build toolchain, from a git
/// repository at a revision equal to the requested version.
#[derive(Debug, Clone, PartialEq, Eq)]
pub struct CargoBuildProvider {
    /// The repository to build from.
    pub git_url: String,
    /// The name of the binary the build produces.
    pub bin_name: String,
}

/// The mathematical shape of a `CargoBuildProvider`.
pub struct CargoBuildProviderV {
    pub git_url: Seq<char>,
    pub bin_name: Seq<char>,
}

impl View for CargoBuildProvider {
    type V = CargoBuildProviderV;

    open spec fn view(&self) -> CargoBuildProviderV {
        CargoBuildProviderV { git_url: self.git_url@, bin_name: self.bin_name@ }
    }
}

/// What the source-build strategy decides to do, before any outside work.
#[derive(Debug, Clone, PartialEq, Eq)]
pub enum SourcePlan {
    /// The cache already holds the entry at this path: use it.
    UseCached(String),
    /// The strategy fails before any build.
    Fail(ToolError),
    /// Build `bin_name` from `git_url` at revision `revision`, offline
    /// when asked, and install the result at the cache path `dest`.
    Build { git_url: String, revision: String, offline: bool, bin_name: String, dest: String },
}

/// The mathematical shape of a `SourcePlan`.
pub enum SourcePlanV {
    UseCached(Seq<char>),
    Fail(ToolErrorV),
    Build {
        git_url: Seq<char>,
        revision: Seq<char>,
        offline: bool,
        bin_name: Seq<char>,
        dest: Seq<char>,
    },
}

impl View for SourcePlan {
    type V = SourcePlanV;

    open spec fn view(&self) -> SourcePlanV {
        match self {
            SourcePlan::UseCached(p) => SourcePlanV::UseCached(p@),
            SourcePlan::Fail(e) => SourcePlanV::Fail(e@),
            SourcePlan::Build { git_url, revision, offline, bin_name, dest } => SourcePlanV::Build {
                git_url: git_url@,
                revision: revision@,
                offline: *offline,
                bin_name: bin_name@,
                dest: dest@,
            },
        }
    }
}

/// The failure the source strategy reports when the build toolchain is
/// absent from the host.
pub open spec fn missing_toolchain_failure_spec() -> ToolErrorV {
    ToolErrorV::StrategyFailure("CargoBuildProvider"@, "Cargo not found"@)
}

/// The plan the source strategy makes: the cached path when the entry is
/// installed; an immediate failure naming the missing toolchain when the
/// build command is absent; otherwise a build of the tool's binary at the
/// requested revision, installed at the cache path.
pub open spec fn source_plan_spec(
    p: CargoBuildProviderV,
    tool: Seq<char>,
    version: Seq<char>,
    offline: bool,
    installed: bool,
    cargo_present: bool,
    base: Seq<char>,
) -> SourcePlanV {
    if installed {
        SourcePlanV::UseCached(tool_path_spec(base, tool, version))
    } else if !cargo_present {
        SourcePlanV::Fail(missing_toolchain_failure_spec())
    } else {
        SourcePlanV::Build {
            git_url: p.git_url,
            revision: version,
            offline: offline,
            bin_name: p.bin_name,
            dest: tool_path_spec(base, tool, version),
        }
    }
}

impl CargoBuildProvider {
    /// Decides what the source strategy does for `tool` at `version`,
    /// given whether the cache already holds the entry and whether the
    /// build toolchain was found on the host.
    pub fn plan(
        &self,
        tool: &str,
        version: &str,
        context: &ToolContext,
        installed: bool,
        cargo_present: bool,
    ) -> (r: SourcePlan)
        ensures
            r@ == source_plan_spec(
                self@,
                tool@,
                version@,
                context.offline,
                installed,
                cargo_present,
                context.cache@,
            ),
    {
        if installed {
            SourcePlan::UseCached(context.cache.get_tool_path(tool, version))
        } else if !cargo_present {
            SourcePlan::Fail(
                ToolError::StrategyFailure(
                    "CargoBuildProvider".to_owned(),
                    "Cargo not found".to_owned(),
                ),
            )
        } else {
            SourcePlan::Build {
                git_url: self.git_url.clone(),
                revision: version.to_owned(),
                offline: context.offline,
                bin_name: self.bin_name.clone(),
                dest: context.cache.get_tool_path(tool, version),
            }
        }
    }

    /// The outcome of a finished build: the cache path when the build
    /// succeeded and the expected binary existed, a strategy failure for a
    /// failed build, and a distinct strategy failure for a build that
    /// succeeded without producing the expected binary.
    pub fn judge_build(
        &self,
        tool: &str,
        version: &str,
        context: &ToolContext,
        build_ok: bool,
        binary_found: bool,
    ) -> (r: Result<String, ToolError>)
        ensures
            outcome_view(r) == source_outcome_spec(
                self@,
                tool@,
                version@,
                context.cache@,
                build_ok,
                binary_found,
            ),
    {
        if !build_ok {
            Err(
                ToolError::StrategyFailure(
                    "CargoBuildProvider".to_owned(),
                    "Cargo install failed".to_owned(),
                ),
            )
        } else if !binary_found {
            let mut msg = "Binary '".to_owned();
            msg.append(self.bin_name.as_str());
            msg.append("' not found after build");
            proof {
                assert(msg@ =~= missing_binary_msg(self@.bin_name));
            }
            Err(ToolError::StrategyFailure("CargoBuildProvider".to_owned(), msg))
        } else {
            Ok(context.cache.get_tool_path(tool, version))
        }
    }
}

/// The message reported when a successful build left no binary.
pub open spec fn missing_binary_msg(bin_name: Seq<char>) -> Seq<char> {
    "Binary '"@ + bin_name + "' not found after build"@
}

/// The outcome the source strategy maps a finished build to.
pub open spec fn source_outcome_spec(
    p: CargoBuildProviderV,
    tool: Seq<char>,
    version: Seq<char>,
    base: Seq<char>,
    build_ok: bool,
    binary_found: bool,
) -> Result<Seq<char>, ToolErrorV> {
    if !build_ok {
        Err(ToolErrorV::StrategyFailure("CargoBuildProvider"@, "Cargo install failed"@))
    } else if !binary_found {
        Err(ToolErrorV::StrategyFailure("CargoBuildProvider"@, missing_binary_msg(p.bin_name)))
    } else {
        Ok(tool_path_spec(base, tool, version))
    }
}

/// One acquisition strategy: the closed union over the three provider
/// variants.
#[derive(Debug, Clone, PartialEq, Eq)]
pub enum Provider {
    /// Search the host's system path.
    Host(HostProvider),
    /// Download from a templated URL.
    Url(UrlProvider),
    /// Build from source.
    Source(CargoBuildProvider),
}

/// The mathematical shape of a `Provider`.
pub enum ProviderV {
    Host,
    Url(UrlProviderV),
    Source(CargoBuildProviderV),
}

impl View for Provider {
    type V = ProviderV;

    open spec fn view(&self) -> ProviderV {
        match self {
            Provider::Host(_) => ProviderV::Host,
            Provider::Url(u) => ProviderV::Url(u@),
            Provider::Source(s) => ProviderV::Source(s@),
        }
    }
}

impl DeepView for Provider {
    type V = ProviderV;

    open spec fn deep_view(&self) -> ProviderV {
        self.view()
    }
}

/// An ordered composite of providers, tried in sequence; the first
/// success wins.
#[derive(Debug, Clone, PartialEq, Eq)]
pub struct ChainProvider {
    providers: Vec<Provider>,
}

impl View for ChainProvider {
    type V = Seq<ProviderV>;

    closed spec fn view(&self) -> Seq<ProviderV> {
        self.providers.deep_view()
    }
}

/// The result an ordered chain reports, given each provider's outcome in
/// order: the first success, else the last failure, else `NotFound` for
/// an empty chain.
pub open spec fn chain_result(
    tool: Seq<char>,
    outcomes: Seq<Result<Seq<char>, ToolErrorV>>,
) -> Result<Seq<char>, ToolErrorV>
    decreases outcomes.len(),
{
    if outcomes.len() == 0 {
        Err(ToolErrorV::NotFound(tool))
    } else if outcomes[0] is Ok {
        outcomes[0]
    } else if outcomes.len() == 1 {
        outcomes[0]
    } else {
        chain_result(tool, outcomes.drop_first())
    }
}

/// The views of a sequence of provider outcomes.
pub open spec fn outcomes_view(s: Seq<Result<String, ToolError>>) -> Seq<
    Result<Seq<char>, ToolErrorV>,
> {
    s.map_values(|o: Result<String, ToolError>| outcome_view(o))
}

impl ChainProvider {
    /// A chain over the given providers, in order.
    pub fn new(providers: Vec<Provider>) -> (r: ChainProvider)
        ensures
            r@ == providers.deep_view(),
    {
        ChainProvider { providers }
    }

    /// How many providers the chain tries.
    pub fn len(&self) -> (r: usize)
        ensures
            r == self@.len(),
    {
        self.providers.len()
    }

    /// The provider tried at position `i`.
    pub fn provider(&self, i: usize) -> (r: &Provider)
        requires
            i < self@.len(),
        ensures
            r.deep_view() == self@[i as int],
    {
        &self.providers[i]
    }

    /// Folds the providers' outcomes, in order, into the chain's result:
    /// the first success, else the last failure, else `NotFound` naming
    /// the tool.
    pub fn fold_outcomes(&self, tool: &str, outcomes: &Vec<Result<String, ToolError>>) -> (r:
        Result<String, ToolError>)
        requires
            outcomes@.len() == self@.len(),
        ensures
            outcome_view(r) == chain_result(tool@, outcomes_view(outcomes@)),
    {
        let ghost all = outcomes_view(outcomes@);
        let n: usize = outcomes.len();
        let mut k: usize = 0;
        proof {
            assert(all.subrange(0, n as int) =~= all);
        }
        while k < n
            invariant
                all == outcomes_view(outcomes@),
                n == outcomes.len(),
                n == all.len(),
                k <= n,
                n > 0 ==> k < n,
                chain_result(tool@, all) == chain_result(tool@, all.subrange(k as int, n as int)),
            decreases n - k,
        {
            let ghost tail = all.subrange(k as int, n as int);
            proof {
                assert(tail[0] == all[k as int]);
                assert(tail.drop_first() =~= all.subrange(k as int + 1, n as int));
            }
            match &outcomes[k] {
                Ok(p) => {
                    proof {
                        assert(all[k as int] == outcome_view(outcomes@[k as int]));
                        assert(chain_result(tool@, tail) == tail[0]);
                    }
                    return Ok(p.clone());
                },
                Err(e) => {
                    proof {
                        assert(all[k as int] == outcome_view(outcomes@[k as int]));
                    }
                    if k == n - 1 {
                        proof {
                            assert(chain_result(tool@, tail) == tail[0]);
                        }
                        return Err(e.duplicate());
                    }
                },
            }
            k += 1;
        }
        proof {
            assert(all.len() == 0);
        }
        Err(ToolError::NotFound(tool.to_owned()))
    }
}

/// What the chain does after one provider's attempt.
#[derive(Debug, Clone, PartialEq, Eq)]
pub enum ChainStep {
    /// A provider succeeded: the chain ends at once with its result, and
    /// no later provider is tried.
    Done(String),
    /// The provider failed: its error is recorded as the most recent
    /// failure and the next provider is tried.
    Continue(ToolError),
}

/// Decides the chain's next move from one provider's outcome: a success
/// short-circuits the chain with exactly that result; a failure is
/// recorded and iteration continues.
pub fn chain_step(outcome: Result<String, ToolError>) -> (r: ChainStep)
    ensures
        outcome matches Ok(p) ==> r == ChainStep::Done(p),
        outcome matches Err(e) ==> r == ChainStep::Continue(e),
{
    match outcome {
        Ok(p) => ChainStep::Done(p),
        Err(e) => ChainStep::Continue(e),
    }
}

/// Law: if some provider succeeds and every provider before it fails, the
/// chain returns exactly that provider's result.
pub proof fn lemma_chain_first_success(
    tool: Seq<char>,
    outcomes: Seq<Result<Seq<char>, ToolErrorV>>,
    i: int,
)
    requires
        0 <= i < outcomes.len(),
        outcomes[i] is Ok,
        forall|j: int| 0 <= j < i ==> outcomes[j] is Err,
    ensures
        chain_result(tool, outcomes) == outcomes[i],
    decreases i,
{
    if i == 0 {
    } else {
        assert(outcomes[0] is Err);
        lemma_chain_first_success(tool, outcomes.drop_first(), i - 1);
        assert(outcomes.drop_first()[i - 1] == outcomes[i]);
    }
}

/// Law: if every provider fails, the chain fails with the last provider's
/// error, not the first's.
pub proof fn lemma_chain_all_fail(tool: Seq<char>, outcomes: Seq<Result<Seq<char>, ToolErrorV>>)
    requires
        outcomes.len() > 0,
        forall|j: int| 0 <= j < outcomes.len() ==> outcomes[j] is Err,
    ensures
        chain_result(tool, outcomes) == outcomes[outcomes.len() - 1],
    decreases outcomes.len(),
{
    if outcomes.len() == 1 {
    } else {
        assert forall|j: int| 0 <= j < outcomes.drop_first().len() implies outcomes.drop_first()[j]
            is Err by {
            assert(outcomes.drop_first()[j] == outcomes[j + 1]);
        }
        lemma_chain_all_fail(tool, outcomes.drop_first());
        assert(outcomes.drop_first()[outcomes.len() - 2] == outcomes[outcomes.len() - 1]);
    }
}

/// Law: an empty chain reports `NotFound` for the requested tool.
pub proof fn lemma_chain_empty(tool: Seq<char>, outcomes: Seq<Result<Seq<char>, ToolErrorV>>)
    requires
        outcomes.len() == 0,
    ensures
        chain_result(tool, outcomes) == Err::<Seq<char>, ToolErrorV>(ToolErrorV::NotFound(tool)),
{
}

/// Law: in offline mode, a resolved URL that does not use the local-file
/// scheme makes the URL strategy fail outright — the plan is a failure,
/// so no fetch is ever requested.
pub proof fn lemma_offline_rejects_network(
    p: UrlProviderV,
    tool: Seq<char>,
    version: Seq<char>,
    base: Seq<char>,
    platform: Platform,
)
    requires
        !match_at(resolve_url_spec(p.url_template, version, platform), "file://"@, 0),
    ensures
        url_plan_spec(p, tool, version, true, false, base, platform) == UrlPlanV::Fail(
            offline_failure_spec(),
        ),
{
}

/// Law: the resolved URL selects exactly the platform's identifier: it is
/// the template with `{version}` replaced by the version and `{platform}`
/// by that platform's identifier, for each of the four platforms.
pub proof fn lemma_platform_substitution(template: Seq<char>, version: Seq<char>)
    ensures
        forall|p: Platform|
            #[trigger] resolve_url_spec(template, version, p) == replace_spec(
                replace_spec(template, "{version}"@, version),
                "{platform}"@,
                platform_ident_spec(p),
            ),
{
}

/// A well-formed URL template: every opening brace begins a `{version}`
/// or `{platform}` placeholder.
pub open spec fn template_wf(t: Seq<char>) -> bool {
    braces_open_one_of(t, "{version}"@, "{platform}"@)
}

/// Law: resolving a well-formed template with a brace-free version, on
/// any of the four platforms, leaves no unresolved `{version}` or
/// `{platform}` placeholder in the URL.
pub proof fn lemma_no_placeholder_remains(template: Seq<char>, version: Seq<char>, p: Platform)
    requires
        template_wf(template),
        brace_free(version),
    ensures
        forall|i: int| !match_at(resolve_url_spec(template, version, p), "{version}"@, i),
        forall|i: int| !match_at(resolve_url_spec(template, version, p), "{platform}"@, i),
{
    reveal_strlit("{version}");
    reveal_strlit("{platform}");
    assert(placeholder_shaped("{version}"@));
    assert(placeholder_shaped("{platform}"@));
    match p {
        Platform::MacosAarch64 => {
            reveal_strlit("aarch64-apple-darwin");
            assert(brace_free(platform_ident_spec(p)));
        },
        Platform::MacosX64 => {
            reveal_strlit("x86_64-apple-darwin");
            assert(brace_free(platform_ident_spec(p)));
        },
        Platform::WindowsX64 => {
            reveal_strlit("x86_64-pc-windows-msvc");
            assert(brace_free(platform_ident_spec(p)));
        },
        Platform::LinuxX64 => {
            reveal_strlit("x86_64-unknown-linux-musl");
            assert(brace_free(platform_ident_spec(p)));
        },
    }
    lemma_double_replace_leaves_no_needle(
        template,
        "{version}"@,
        "{platform}"@,
        version,
        platform_ident_spec(p),
    );
}

} // verus!
