use bu::detector::{detect_project_type, ProjectMarkers, ProjectType, VersionFiles};

fn no_markers() -> ProjectMarkers {
    ProjectMarkers::default()
}

fn no_files() -> VersionFiles {
    VersionFiles {
        bazelversion: None,
        buckversion: None,
        nvmrc: None,
        node_version: None,
        python_version: None,
        pyproject: None,
        global_json: None,
        gradle_wrapper: None,
        maven_wrapper: None,
    }
}

// =========================================================================
// Monorepo tools
// =========================================================================

#[test]
fn test_detect_buck2_buckconfig() {
    let mut m = no_markers();
    m.buckconfig = true;
    assert_eq!(detect_project_type(&m), ProjectType::Buck2);
}

#[test]
fn test_detect_buck2_buck_file() {
    let mut m = no_markers();
    m.buck = true;
    assert_eq!(detect_project_type(&m), ProjectType::Buck2);
}

#[test]
fn test_detect_bazel_workspace() {
    let mut m = no_markers();
    m.workspace = true;
    assert_eq!(detect_project_type(&m), ProjectType::Bazel);
}

#[test]
fn test_detect_bazel_module() {
    let mut m = no_markers();
    m.module_bazel = true;
    assert_eq!(detect_project_type(&m), ProjectType::Bazel);
}

// =========================================================================
// Systems programming
// =========================================================================

#[test]
fn test_detect_cargo() {
    let mut m = no_markers();
    m.cargo_toml = true;
    assert_eq!(detect_project_type(&m), ProjectType::Cargo);
}

#[test]
fn test_detect_go() {
    let mut m = no_markers();
    m.go_mod = true;
    assert_eq!(detect_project_type(&m), ProjectType::Go);
}

#[test]
fn test_detect_zig() {
    let mut m = no_markers();
    m.build_zig = true;
    assert_eq!(detect_project_type(&m), ProjectType::Zig);
}

// =========================================================================
// JVM
// =========================================================================

#[test]
fn test_detect_maven() {
    let mut m = no_markers();
    m.pom_xml = true;
    assert_eq!(detect_project_type(&m), ProjectType::Maven);
}

#[test]
fn test_detect_gradle() {
    let mut m = no_markers();
    m.build_gradle = true;
    assert_eq!(detect_project_type(&m), ProjectType::Gradle);
}

#[test]
fn test_detect_gradle_kotlin() {
    let mut m = no_markers();
    m.build_gradle_kts = true;
    assert_eq!(detect_project_type(&m), ProjectType::Gradle);
}

// =========================================================================
// JavaScript/TypeScript
// =========================================================================

#[test]
fn test_detect_bun() {
    let mut m = no_markers();
    m.package_json = true;
    m.bun_lockb = true;
    assert_eq!(detect_project_type(&m), ProjectType::Bun);
}

#[test]
fn test_detect_pnpm() {
    let mut m = no_markers();
    m.package_json = true;
    m.pnpm_lock = true;
    assert_eq!(detect_project_type(&m), ProjectType::Pnpm);
}

#[test]
fn test_detect_yarn() {
    let mut m = no_markers();
    m.package_json = true;
    m.yarn_lock = true;
    assert_eq!(detect_project_type(&m), ProjectType::Yarn);
}

#[test]
fn test_detect_deno() {
    let mut m = no_markers();
    m.deno_json = true;
    assert_eq!(detect_project_type(&m), ProjectType::Deno);
}

#[test]
fn test_detect_deno_jsonc() {
    let mut m = no_markers();
    m.deno_jsonc = true;
    assert_eq!(detect_project_type(&m), ProjectType::Deno);
}

#[test]
fn test_detect_npm_fallback() {
    let mut m = no_markers();
    m.package_json = true;
    assert_eq!(detect_project_type(&m), ProjectType::Npm);
}

// =========================================================================
// Python
// =========================================================================

#[test]
fn test_detect_uv() {
    let mut m = no_markers();
    m.pyproject_toml = true;
    m.uv_lock = true;
    assert_eq!(detect_project_type(&m), ProjectType::Uv);
}

#[test]
fn test_detect_poetry() {
    let mut m = no_markers();
    m.pyproject_toml = true;
    m.poetry_lock = true;
    assert_eq!(detect_project_type(&m), ProjectType::Poetry);
}

#[test]
fn test_detect_pip() {
    let mut m = no_markers();
    m.requirements_txt = true;
    assert_eq!(detect_project_type(&m), ProjectType::Pip);
}

#[test]
fn test_detect_pyproject_defaults_to_uv() {
    let mut m = no_markers();
    m.pyproject_toml = true;
    assert_eq!(detect_project_type(&m), ProjectType::Uv);
}

// =========================================================================
// .NET
// =========================================================================

#[test]
fn test_detect_dotnet_csproj() {
    assert!(bu::detector::has_dotnet_project(&vec![
        "MyProject.csproj".to_string()
    ]));
    let mut m = no_markers();
    m.dotnet_project = true;
    assert_eq!(detect_project_type(&m), ProjectType::Dotnet);
}

#[test]
fn test_detect_dotnet_sln() {
    assert!(bu::detector::has_dotnet_project(&vec![
        "MySolution.sln".to_string()
    ]));
    let mut m = no_markers();
    m.dotnet_project = true;
    assert_eq!(detect_project_type(&m), ProjectType::Dotnet);
}

#[test]
fn test_detect_dotnet_fsproj() {
    assert!(bu::detector::has_dotnet_project(&vec![
        "MyProject.fsproj".to_string()
    ]));
    let mut m = no_markers();
    m.dotnet_project = true;
    assert_eq!(detect_project_type(&m), ProjectType::Dotnet);
}

#[test]
fn test_detect_dotnet_none() {
    assert!(!bu::detector::has_dotnet_project(&vec![
        "main.rs".to_string(),
        "README.md".to_string()
    ]));
    assert!(!bu::detector::has_dotnet_project(&vec![]));
}

// =========================================================================
// Other languages
// =========================================================================

#[test]
fn test_detect_swift() {
    let mut m = no_markers();
    m.package_swift = true;
    assert_eq!(detect_project_type(&m), ProjectType::Swift);
}

#[test]
fn test_detect_bundler() {
    let mut m = no_markers();
    m.gemfile = true;
    assert_eq!(detect_project_type(&m), ProjectType::Bundler);
}

#[test]
fn test_detect_mix() {
    let mut m = no_markers();
    m.mix_exs = true;
    assert_eq!(detect_project_type(&m), ProjectType::Mix);
}

#[test]
fn test_detect_composer() {
    let mut m = no_markers();
    m.composer_json = true;
    assert_eq!(detect_project_type(&m), ProjectType::Composer);
}

// =========================================================================
// Task runners
// =========================================================================

#[test]
fn test_detect_just() {
    let mut m = no_markers();
    m.justfile = true;
    assert_eq!(detect_project_type(&m), ProjectType::Just);
}

#[test]
fn test_detect_just_hidden() {
    let mut m = no_markers();
    m.dot_justfile = true;
    assert_eq!(detect_project_type(&m), ProjectType::Just);
}

#[test]
fn test_detect_cmake() {
    let mut m = no_markers();
    m.cmakelists = true;
    assert_eq!(detect_project_type(&m), ProjectType::Cmake);
}

#[test]
fn test_detect_make() {
    let mut m = no_markers();
    m.makefile = true;
    assert_eq!(detect_project_type(&m), ProjectType::Make);
}

#[test]
fn test_detect_make_lowercase() {
    let mut m = no_markers();
    m.makefile_lower = true;
    assert_eq!(detect_project_type(&m), ProjectType::Make);
}

#[test]
fn test_detect_nothing_is_unknown() {
    assert_eq!(detect_project_type(&no_markers()), ProjectType::Unknown);
}

// =========================================================================
// ProjectType methods
// =========================================================================

#[test]
fn test_tool_names() {
    assert_eq!(ProjectType::Buck2.tool_name(), "buck2");
    assert_eq!(ProjectType::Cargo.tool_name(), "cargo");
    assert_eq!(ProjectType::Maven.tool_name(), "mvn");
    assert_eq!(ProjectType::Go.tool_name(), "go");
    assert_eq!(ProjectType::Uv.tool_name(), "uv");
    assert_eq!(ProjectType::Poetry.tool_name(), "poetry");
    assert_eq!(ProjectType::Dotnet.tool_name(), "dotnet");
    assert_eq!(ProjectType::Bundler.tool_name(), "bundle");
    assert_eq!(ProjectType::Just.tool_name(), "just");
}

#[test]
fn test_display() {
    assert_eq!(ProjectType::Buck2.display_name(), "Buck2");
    assert_eq!(ProjectType::Npm.display_name(), "npm");
    assert_eq!(ProjectType::Dotnet.display_name(), ".NET");
    assert_eq!(ProjectType::Cmake.display_name(), "CMake");
    assert_eq!(ProjectType::Unknown.display_name(), "Unknown");
}

#[test]
fn test_is_known() {
    assert!(ProjectType::Cargo.is_known());
    assert!(ProjectType::Uv.is_known());
    assert!(!ProjectType::Unknown.is_known());
}

// =========================================================================
// Precedence tests
// =========================================================================

#[test]
fn test_buck2_takes_precedence_over_npm() {
    let mut m = no_markers();
    m.buckconfig = true;
    m.package_json = true;
    assert_eq!(detect_project_type(&m), ProjectType::Buck2);
}

#[test]
fn test_bazel_takes_precedence_over_cargo() {
    let mut m = no_markers();
    m.workspace = true;
    m.cargo_toml = true;
    assert_eq!(detect_project_type(&m), ProjectType::Bazel);
}

#[test]
fn test_uv_lock_takes_precedence_over_poetry() {
    let mut m = no_markers();
    m.pyproject_toml = true;
    m.uv_lock = true;
    m.poetry_lock = true;
    assert_eq!(detect_project_type(&m), ProjectType::Uv);
}

// =========================================================================
// Version dispatch
// =========================================================================

#[test]
fn test_get_version_dispatch_buck2() {
    let mut f = no_files();
    f.buckversion = Some("2024-01-01\n".to_string());
    assert_eq!(ProjectType::Buck2.get_version(&f), "2024-01-01");
}

#[test]
fn test_get_version_dispatch_unpinned() {
    let f = no_files();
    assert_eq!(ProjectType::Cargo.get_version(&f), "latest");
    assert_eq!(ProjectType::Make.get_version(&f), "latest");
    assert_eq!(ProjectType::Deno.get_version(&f), "latest");
}
