use bu::bazel::get_bazel_version;
use bu::buck2::get_buck2_version;
use bu::deno::get_deno_version;
use bu::dotnet::{extract_sdk_version, get_dotnet_version};
use bu::npm::{get_node_version, normalize_version};
use bu::python::{clean_version_spec, extract_requires_python, get_python_version};

// =========================================================================
// Bazel
// =========================================================================

#[test]
fn bazel_test_read_specific_version() {
    let version = get_bazel_version(&Some("7.0.0\n".to_string()));
    assert_eq!(version, "7.0.0");
}

#[test]
fn bazel_test_read_latest_version() {
    let version = get_bazel_version(&Some("latest\n".to_string()));
    assert_eq!(version, "latest");
}

#[test]
fn bazel_test_trim_whitespace() {
    let version = get_bazel_version(&Some("  6.4.0  \n\n".to_string()));
    assert_eq!(version, "6.4.0");
}

#[test]
fn bazel_test_no_version_file_defaults_to_latest() {
    let version = get_bazel_version(&None);
    assert_eq!(version, "latest");
}

// =========================================================================
// Buck2
// =========================================================================

#[test]
fn buck2_test_read_specific_version() {
    let version = get_buck2_version(&Some("2023-10-15\n".to_string()));
    assert_eq!(version, "2023-10-15");
}

#[test]
fn buck2_test_read_latest_version() {
    let version = get_buck2_version(&Some("latest\n".to_string()));
    assert_eq!(version, "latest");
}

#[test]
fn buck2_test_trim_whitespace() {
    let version = get_buck2_version(&Some("  2023-12-01  \n\n".to_string()));
    assert_eq!(version, "2023-12-01");
}

#[test]
fn buck2_test_no_version_file_defaults_to_latest() {
    let version = get_buck2_version(&None);
    assert_eq!(version, "latest");
}

// =========================================================================
// Deno
// =========================================================================

#[test]
fn test_returns_latest() {
    let version = get_deno_version();
    assert_eq!(version, "latest");
}

// =========================================================================
// Node
// =========================================================================

#[test]
fn test_read_from_nvmrc() {
    let version = get_node_version(&Some("18.17.0\n".to_string()), &None);
    assert_eq!(version, "18.17.0");
}

#[test]
fn test_read_from_node_version() {
    let version = get_node_version(&None, &Some("20.10.0\n".to_string()));
    assert_eq!(version, "20.10.0");
}

#[test]
fn test_prefer_nvmrc_when_both_exist() {
    let version = get_node_version(
        &Some("18.17.0\n".to_string()),
        &Some("20.10.0\n".to_string()),
    );
    assert_eq!(
        version, "18.17.0",
        ".nvmrc should be preferred over .node-version"
    );
}

#[test]
fn test_handle_v_prefix() {
    let version = get_node_version(&Some("v18.17.0\n".to_string()), &None);
    assert_eq!(version, "18.17.0", "v prefix should be removed");
}

#[test]
fn npm_test_trim_whitespace() {
    let version = get_node_version(&Some("  18.17.0  \n".to_string()), &None);
    assert_eq!(version, "18.17.0", "whitespace should be trimmed");
}

#[test]
fn test_trim_whitespace_with_v_prefix() {
    let version = get_node_version(&Some("  v18.17.0  \n".to_string()), &None);
    assert_eq!(
        version, "18.17.0",
        "whitespace should be trimmed and v prefix removed"
    );
}

#[test]
fn test_default_to_latest_when_no_files_exist() {
    let version = get_node_version(&None, &None);
    assert_eq!(
        version, "latest",
        "should default to 'latest' when no version files exist"
    );
}

#[test]
fn test_node_version_file_with_v_prefix() {
    let version = get_node_version(&None, &Some("v20.10.0\n".to_string()));
    assert_eq!(
        version, "20.10.0",
        "v prefix should be removed from .node-version"
    );
}

#[test]
fn test_normalize_version_plain() {
    assert_eq!(normalize_version("18.17.0"), "18.17.0");
    assert_eq!(normalize_version("v18.17.0"), "18.17.0");
    assert_eq!(normalize_version(""), "");
}

// =========================================================================
// Python
// =========================================================================

#[test]
fn test_read_python_version_file() {
    let version = get_python_version(&Some("3.11.4\n".to_string()), &None);
    assert_eq!(version, "3.11.4");
}

#[test]
fn test_read_pyproject_requires_python() {
    let content = "[project]\nname = \"myproject\"\nrequires-python = \">=3.9\"\n";
    let version = get_python_version(&None, &Some(content.to_string()));
    assert_eq!(version, "3.9");
}

#[test]
fn test_python_version_file_takes_precedence() {
    let version = get_python_version(
        &Some("3.12\n".to_string()),
        &Some("requires-python = \">=3.9\"\n".to_string()),
    );
    assert_eq!(version, "3.12");
}

#[test]
fn test_no_version_file_returns_latest() {
    let version = get_python_version(&None, &None);
    assert_eq!(version, "latest");
}

#[test]
fn test_clean_version_spec() {
    assert_eq!(clean_version_spec(">=3.9"), "3.9");
    assert_eq!(clean_version_spec("==3.11.0"), "3.11.0");
    assert_eq!(clean_version_spec("~=3.10"), "3.10");
    assert_eq!(clean_version_spec("3.9"), "3.9");
}

#[test]
fn test_extract_requires_python_single_quotes() {
    let content = "requires-python = '>=3.8'";
    assert_eq!(extract_requires_python(content), Some("3.8".to_string()));
}

#[test]
fn test_extract_requires_python_double_quotes() {
    let content = r#"requires-python = ">=3.10""#;
    assert_eq!(extract_requires_python(content), Some("3.10".to_string()));
}

#[test]
fn test_extract_requires_python_absent() {
    let content = "[project]\nname = \"x\"\n";
    assert_eq!(extract_requires_python(content), None);
}

#[test]
fn test_empty_python_version_falls_through() {
    let version = get_python_version(
        &Some("  \n".to_string()),
        &Some("requires-python = \">=3.9\"\n".to_string()),
    );
    assert_eq!(version, "3.9");
}

// =========================================================================
// .NET
// =========================================================================

#[test]
fn test_read_global_json() {
    let content = "{\n  \"sdk\": {\n    \"version\": \"8.0.100\"\n  }\n}\n";
    let version = get_dotnet_version(&Some(content.to_string()));
    assert_eq!(version, "8.0.100");
}

#[test]
fn test_no_global_json_returns_latest() {
    let version = get_dotnet_version(&None);
    assert_eq!(version, "latest");
}

#[test]
fn test_global_json_with_additional_fields() {
    let content = "{\n  \"sdk\": {\n    \"version\": \"7.0.400\",\n    \"rollForward\": \"latestMinor\"\n  },\n  \"msbuild-sdks\": {\n    \"Microsoft.Build.Traversal\": \"4.0.0\"\n  }\n}\n";
    let version = get_dotnet_version(&Some(content.to_string()));
    assert_eq!(version, "7.0.400");
}

#[test]
fn test_extract_sdk_version_minified() {
    let content = r#"{"sdk":{"version":"6.0.300"}}"#;
    assert_eq!(extract_sdk_version(content), Some("6.0.300".to_string()));
}

#[test]
fn test_extract_sdk_version_formatted() {
    let content = r#"
{
  "sdk": {
    "version": "8.0.100"
  }
}
"#;
    assert_eq!(extract_sdk_version(content), Some("8.0.100".to_string()));
}

#[test]
fn test_extract_sdk_version_no_sdk_section() {
    let content = r#"{"other":{"version":"6.0.300"}}"#;
    assert_eq!(extract_sdk_version(content), None);
}
