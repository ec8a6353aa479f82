//! Project type detection based on marker files.
//!
//! Which marker files exist in the project directory is collected by the
//! caller into a `ProjectMarkers` record; classification over that record
//! is pure and fully specified, monorepo tools first, task runners last.

use vstd::prelude::*;

use crate::bazel;
use crate::buck2;
use crate::dotnet;
use crate::gradle;
use crate::maven;
use crate::npm;
use crate::python;
use crate::strutil::ends_with_spec;

verus! {

/// A detected build system.
#[derive(Debug, Clone, Copy, PartialEq, Eq, Structural)]
pub enum ProjectType {
    Buck2,
    Bazel,
    Cargo,
    Go,
    Zig,
    Maven,
    Gradle,
    Npm,
    Pnpm,
    Yarn,
    Bun,
    Deno,
    Uv,
    Poetry,
    Pip,
    Dotnet,
    Swift,
    Bundler,
    Mix,
    Composer,
    Make,
    Just,
    Cmake,
    Unknown,
}

/// The command-line tool name for each known project type.
pub open spec fn tool_name_spec(t: ProjectType) -> Seq<char> {
    match t {
        ProjectType::Buck2 => "buck2"@,
        ProjectType::Bazel => "bazel"@,
        ProjectType::Cargo => "cargo"@,
        ProjectType::Go => "go"@,
        ProjectType::Zig => "zig"@,
        ProjectType::Maven => "mvn"@,
        ProjectType::Gradle => "gradle"@,
        ProjectType::Npm => "npm"@,
        ProjectType::Pnpm => "pnpm"@,
        ProjectType::Yarn => "yarn"@,
        ProjectType::Bun => "bun"@,
        ProjectType::Deno => "deno"@,
        ProjectType::Uv => "uv"@,
        ProjectType::Poetry => "poetry"@,
        ProjectType::Pip => "pip"@,
        ProjectType::Dotnet => "dotnet"@,
        ProjectType::Swift => "swift"@,
        ProjectType::Bundler => "bundle"@,
        ProjectType::Mix => "mix"@,
        ProjectType::Composer => "composer"@,
        ProjectType::Make => "make"@,
        ProjectType::Just => "just"@,
        ProjectType::Cmake => "cmake"@,
        ProjectType::Unknown => Seq::empty(),
    }
}

/// The human-readable name of each project type.
pub open spec fn display_name_spec(t: ProjectType) -> Seq<char> {
    match t {
        ProjectType::Buck2 => "Buck2"@,
        ProjectType::Bazel => "Bazel"@,
        ProjectType::Cargo => "Cargo"@,
        ProjectType::Go => "Go"@,
        ProjectType::Zig => "Zig"@,
        ProjectType::Maven => "Maven"@,
        ProjectType::Gradle => "Gradle"@,
        ProjectType::Npm => "npm"@,
        ProjectType::Pnpm => "pnpm"@,
        ProjectType::Yarn => "Yarn"@,
        ProjectType::Bun => "Bun"@,
        ProjectType::Deno => "Deno"@,
        ProjectType::Uv => "uv"@,
        ProjectType::Poetry => "Poetry"@,
        ProjectType::Pip => "pip"@,
        ProjectType::Dotnet => ".NET"@,
        ProjectType::Swift => "Swift"@,
        ProjectType::Bundler => "Bundler"@,
        ProjectType::Mix => "Mix"@,
        ProjectType::Composer => "Composer"@,
        ProjectType::Make => "Make"@,
        ProjectType::Just => "Just"@,
        ProjectType::Cmake => "CMake"@,
        ProjectType::Unknown => "Unknown"@,
    }
}

impl ProjectType {
    /// Returns the command-line tool name for this project type. The
    /// unknown project type names no tool and is excluded.
    pub fn tool_name(&self) -> (r: &'static str)
        requires
            !(*self is Unknown),
        ensures
            r@ == tool_name_spec(*self),
    {
        match self {
            ProjectType::Buck2 => "buck2",
            ProjectType::Bazel => "bazel",
            ProjectType::Cargo => "cargo",
            ProjectType::Go => "go",
            ProjectType::Zig => "zig",
            ProjectType::Maven => "mvn",
            ProjectType::Gradle => "gradle",
            ProjectType::Npm => "npm",
            ProjectType::Pnpm => "pnpm",
            ProjectType::Yarn => "yarn",
            ProjectType::Bun => "bun",
            ProjectType::Deno => "deno",
            ProjectType::Uv => "uv",
            ProjectType::Poetry => "poetry",
            ProjectType::Pip => "pip",
            ProjectType::Dotnet => "dotnet",
            ProjectType::Swift => "swift",
            ProjectType::Bundler => "bundle",
            ProjectType::Mix => "mix",
            ProjectType::Composer => "composer",
            ProjectType::Make => "make",
            ProjectType::Just => "just",
            ProjectType::Cmake => "cmake",
            ProjectType::Unknown => "",
        }
    }

    /// The name shown to humans; stands in for rendering the type.
    pub fn display_name(&self) -> (r: &'static str)
        ensures
            r@ == display_name_spec(*self),
    {
        match self {
            ProjectType::Buck2 => "Buck2",
            ProjectType::Bazel => "Bazel",
            ProjectType::Cargo => "Cargo",
            ProjectType::Go => "Go",
            ProjectType::Zig => "Zig",
            ProjectType::Maven => "Maven",
            ProjectType::Gradle => "Gradle",
            ProjectType::Npm => "npm",
            ProjectType::Pnpm => "pnpm",
            ProjectType::Yarn => "Yarn",
            ProjectType::Bun => "Bun",
            ProjectType::Deno => "Deno",
            ProjectType::Uv => "uv",
            ProjectType::Poetry => "Poetry",
            ProjectType::Pip => "pip",
            ProjectType::Dotnet => ".NET",
            ProjectType::Swift => "Swift",
            ProjectType::Bundler => "Bundler",
            ProjectType::Mix => "Mix",
            ProjectType::Composer => "Composer",
            ProjectType::Make => "Make",
            ProjectType::Just => "Just",
            ProjectType::Cmake => "CMake",
            ProjectType::Unknown => "Unknown",
        }
    }

    /// Returns whether this project type is known.
    pub fn is_known(&self) -> (r: bool)
        ensures
            r == !(*self is Unknown),
    {
        !matches!(self, ProjectType::Unknown)
    }

    /// Reads the version for this project type from the version-file
    /// contents collected for the project directory.
    pub fn get_version(&self, files: &VersionFiles) -> (r: String)
        ensures
            r@ == version_spec(*self, files),
    {
        match self {
            ProjectType::Buck2 => buck2::get_buck2_version(&files.buckversion),
            ProjectType::Bazel => bazel::get_bazel_version(&files.bazelversion),
            ProjectType::Npm | ProjectType::Pnpm | ProjectType::Yarn | ProjectType::Bun => {
                npm::get_node_version(&files.nvmrc, &files.node_version)
            },
            ProjectType::Gradle => gradle::get_gradle_version(&files.gradle_wrapper),
            ProjectType::Maven => maven::get_maven_version(&files.maven_wrapper),
            ProjectType::Uv | ProjectType::Poetry | ProjectType::Pip => {
                python::get_python_version(&files.python_version, &files.pyproject)
            },
            ProjectType::Dotnet => dotnet::get_dotnet_version(&files.global_json),
            _ => "latest".to_owned(),
        }
    }
}

/// The contents of the version files a project directory may hold; `None`
/// stands for an absent file.
pub struct VersionFiles {
    /// `.bazelversion`
    pub bazelversion: Option<String>,
    /// `.buckversion`
    pub buckversion: Option<String>,
    /// `.nvmrc`
    pub nvmrc: Option<String>,
    /// `.node-version`
    pub node_version: Option<String>,
    /// `.python-version`
    pub python_version: Option<String>,
    /// `pyproject.toml`
    pub pyproject: Option<String>,
    /// `global.json`
    pub global_json: Option<String>,
    /// `gradle/wrapper/gradle-wrapper.properties`
    pub gradle_wrapper: Option<String>,
    /// `.mvn/wrapper/maven-wrapper.properties`
    pub maven_wrapper: Option<String>,
}

/// The version each project type reads from its version files; `"latest"`
/// for types without version pinning.
pub open spec fn version_spec(t: ProjectType, f: &VersionFiles) -> Seq<char> {
    match t {
        ProjectType::Buck2 => buck2::buck2_version_spec(f.buckversion.deep_view()),
        ProjectType::Bazel => bazel::bazel_version_spec(f.bazelversion.deep_view()),
        ProjectType::Npm | ProjectType::Pnpm | ProjectType::Yarn | ProjectType::Bun
            => npm::node_version_spec(f.nvmrc.deep_view(), f.node_version.deep_view()),
        ProjectType::Gradle => gradle::gradle_version_spec(f.gradle_wrapper.deep_view()),
        ProjectType::Maven => maven::maven_version_spec(f.maven_wrapper.deep_view()),
        ProjectType::Uv | ProjectType::Poetry | ProjectType::Pip
            => python::python_version_spec(
            f.python_version.deep_view(),
            f.pyproject.deep_view(),
        ),
        ProjectType::Dotnet => dotnet::dotnet_version_spec(f.global_json.deep_view()),
        _ => "latest"@,
    }
}

/// Which marker files exist in a project directory.
#[derive(Debug, Clone, Copy, Default)]
pub struct ProjectMarkers {
    /// `.buckconfig`
    pub buckconfig: bool,
    /// `BUCK`
    pub buck: bool,
    /// `WORKSPACE`
    pub workspace: bool,
    /// `WORKSPACE.bazel`
    pub workspace_bazel: bool,
    /// `MODULE.bazel`
    pub module_bazel: bool,
    /// `Cargo.toml`
    pub cargo_toml: bool,
    /// `go.mod`
    pub go_mod: bool,
    /// `build.zig`
    pub build_zig: bool,
    /// `pom.xml`
    pub pom_xml: bool,
    /// `build.gradle`
    pub build_gradle: bool,
    /// `build.gradle.kts`
    pub build_gradle_kts: bool,
    /// `bun.lockb`
    pub bun_lockb: bool,
    /// `pnpm-lock.yaml`
    pub pnpm_lock: bool,
    /// `yarn.lock`
    pub yarn_lock: bool,
    /// `deno.json`
    pub deno_json: bool,
    /// `deno.jsonc`
    pub deno_jsonc: bool,
    /// `uv.lock`
    pub uv_lock: bool,
    /// `poetry.lock`
    pub poetry_lock: bool,
    /// `requirements.txt`
    pub requirements_txt: bool,
    /// `pyproject.toml`
    pub pyproject_toml: bool,
    /// a `.sln`, `.csproj`, `.fsproj` or `.vbproj` entry
    pub dotnet_project: bool,
    /// `Package.swift`
    pub package_swift: bool,
    /// `Gemfile`
    pub gemfile: bool,
    /// `mix.exs`
    pub mix_exs: bool,
    /// `composer.json`
    pub composer_json: bool,
    /// `package.json`
    pub package_json: bool,
    /// `justfile`
    pub justfile: bool,
    /// `.justfile`
    pub dot_justfile: bool,
    /// `CMakeLists.txt`
    pub cmakelists: bool,
    /// `Makefile`
    pub makefile: bool,
    /// `makefile`
    pub makefile_lower: bool,
}

/// The classification the marker files select, in precedence order:
/// monorepo tools, systems languages, JVM, JavaScript lock files, Python
/// lock files, .NET, other languages, the npm fallback, task runners.
pub open spec fn detect_spec(m: ProjectMarkers) -> ProjectType {
    if m.buckconfig || m.buck {
        ProjectType::Buck2
    } else if m.workspace || m.workspace_bazel || m.module_bazel {
        ProjectType::Bazel
    } else if m.cargo_toml {
        ProjectType::Cargo
    } else if m.go_mod {
        ProjectType::Go
    } else if m.build_zig {
        ProjectType::Zig
    } else if m.pom_xml {
        ProjectType::Maven
    } else if m.build_gradle || m.build_gradle_kts {
        ProjectType::Gradle
    } else if m.bun_lockb {
        ProjectType::Bun
    } else if m.pnpm_lock {
        ProjectType::Pnpm
    } else if m.yarn_lock {
        ProjectType::Yarn
    } else if m.deno_json || m.deno_jsonc {
        ProjectType::Deno
    } else if m.uv_lock {
        ProjectType::Uv
    } else if m.poetry_lock {
        ProjectType::Poetry
    } else if m.requirements_txt {
        ProjectType::Pip
    } else if m.pyproject_toml {
        ProjectType::Uv
    } else if m.dotnet_project {
        ProjectType::Dotnet
    } else if m.package_swift {
        ProjectType::Swift
    } else if m.gemfile {
        ProjectType::Bundler
    } else if m.mix_exs {
        ProjectType::Mix
    } else if m.composer_json {
        ProjectType::Composer
    } else if m.package_json {
        ProjectType::Npm
    } else if m.justfile || m.dot_justfile {
        ProjectType::Just
    } else if m.cmakelists {
        ProjectType::Cmake
    } else if m.makefile || m.makefile_lower {
        ProjectType::Make
    } else {
        ProjectType::Unknown
    }
}

/// Detects the build system from the marker files present in a project
/// directory. Monorepo tools take the highest precedence and task runners
/// the lowest; within the JavaScript and Python ecosystems the lock file
/// determines the tool, with `package.json` alone falling back to npm and
/// `pyproject.toml` alone to uv.
pub fn detect_project_type(m: &ProjectMarkers) -> (r: ProjectType)
    ensures
        r == detect_spec(*m),
{
    if m.buckconfig || m.buck {
        ProjectType::Buck2
    } else if m.workspace || m.workspace_bazel || m.module_bazel {
        ProjectType::Bazel
    } else if m.cargo_toml {
        ProjectType::Cargo
    } else if m.go_mod {
        ProjectType::Go
    } else if m.build_zig {
        ProjectType::Zig
    } else if m.pom_xml {
        ProjectType::Maven
    } else if m.build_gradle || m.build_gradle_kts {
        ProjectType::Gradle
    } else if m.bun_lockb {
        ProjectType::Bun
    } else if m.pnpm_lock {
        ProjectType::Pnpm
    } else if m.yarn_lock {
        ProjectType::Yarn
    } else if m.deno_json || m.deno_jsonc {
        ProjectType::Deno
    } else if m.uv_lock {
        ProjectType::Uv
    } else if m.poetry_lock {
        ProjectType::Poetry
    } else if m.requirements_txt {
        ProjectType::Pip
    } else if m.pyproject_toml {
        ProjectType::Uv
    } else if m.dotnet_project {
        ProjectType::Dotnet
    } else if m.package_swift {
        ProjectType::Swift
    } else if m.gemfile {
        ProjectType::Bundler
    } else if m.mix_exs {
        ProjectType::Mix
    } else if m.composer_json {
        ProjectType::Composer
    } else if m.package_json {
        ProjectType::Npm
    } else if m.justfile || m.dot_justfile {
        ProjectType::Just
    } else if m.cmakelists {
        ProjectType::Cmake
    } else if m.makefile || m.makefile_lower {
        ProjectType::Make
    } else {
        ProjectType::Unknown
    }
}

/// Whether `n` names a .NET project or solution file.
pub open spec fn dotnet_marker_spec(n: Seq<char>) -> bool {
    ends_with_spec(n, ".sln"@) || ends_with_spec(n, ".csproj"@) || ends_with_spec(n, ".fsproj"@)
        || ends_with_spec(n, ".vbproj"@)
}

/// Whether any of the directory entry names marks a .NET project.
pub fn has_dotnet_project(names: &Vec<String>) -> (r: bool)
    ensures
        r == exists|j: int| 0 <= j < names.deep_view().len() && dotnet_marker_spec(
            names.deep_view()[j],
        ),
{
    let mut i: usize = 0;
    while i < names.len()
        invariant
            i <= names.len(),
            names.deep_view().len() == names.len(),
            forall|j: int| 0 <= j < i ==> !dotnet_marker_spec(names.deep_view()[j]),
        decreases names.len() - i,
    {
        let n: &str = names[i].as_str();
        proof {
            assert(names.deep_view()[i as int] == names@[i as int]@);
        }
        if crate::strutil::ends_with(n, ".sln") || crate::strutil::ends_with(n, ".csproj")
            || crate::strutil::ends_with(n, ".fsproj") || crate::strutil::ends_with(
            n,
            ".vbproj",
        ) {
            return true;
        }
        i += 1;
    }
    false
}

} // verus!
