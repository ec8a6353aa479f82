use bu::gradle::{extract_version_from_url, get_gradle_version};
use bu::maven::{extract_maven_version, get_maven_version};

// =========================================================================
// Gradle
// =========================================================================

#[test]
fn test_parse_distribution_url_with_bin() {
    let content = "distributionBase=GRADLE_USER_HOME\n\
                   distributionPath=wrapper/dists\n\
                   distributionUrl=https\\://services.gradle.org/distributions/gradle-8.5-bin.zip\n\
                   zipStoreBase=GRADLE_USER_HOME\n\
                   zipStorePath=wrapper/dists\n";
    let version = get_gradle_version(&Some(content.to_string()));
    assert_eq!(version, "8.5");
}

#[test]
fn test_parse_distribution_url_with_all() {
    let content = "distributionBase=GRADLE_USER_HOME\n\
                   distributionUrl=https\\://services.gradle.org/distributions/gradle-7.6.1-all.zip\n\
                   zipStoreBase=GRADLE_USER_HOME\n";
    let version = get_gradle_version(&Some(content.to_string()));
    assert_eq!(version, "7.6.1");
}

#[test]
fn test_parse_distribution_url_without_escaped_colon() {
    let content = "distributionUrl=https://services.gradle.org/distributions/gradle-8.0-bin.zip\n";
    let version = get_gradle_version(&Some(content.to_string()));
    assert_eq!(version, "8.0");
}

#[test]
fn test_handle_missing_wrapper_file() {
    let version = get_gradle_version(&None);
    assert_eq!(version, "latest");
}

#[test]
fn test_handle_malformed_properties_no_distribution_url() {
    let content = "distributionBase=GRADLE_USER_HOME\nzipStoreBase=GRADLE_USER_HOME\n";
    let version = get_gradle_version(&Some(content.to_string()));
    assert_eq!(version, "latest");
}

#[test]
fn test_handle_malformed_properties_invalid_url() {
    let content = "distributionUrl=invalid-url\n";
    let version = get_gradle_version(&Some(content.to_string()));
    assert_eq!(version, "latest");
}

#[test]
fn test_extract_version_from_url_bin() {
    assert_eq!(
        extract_version_from_url("https://services.gradle.org/distributions/gradle-8.5-bin.zip"),
        Some("8.5".to_string())
    );
}

#[test]
fn test_extract_version_from_url_all() {
    assert_eq!(
        extract_version_from_url("https://services.gradle.org/distributions/gradle-7.6.1-all.zip"),
        Some("7.6.1".to_string())
    );
}

#[test]
fn test_extract_version_from_url_escaped() {
    assert_eq!(
        extract_version_from_url("https\\://services.gradle.org/distributions/gradle-8.0-bin.zip"),
        Some("8.0".to_string())
    );
}

#[test]
fn test_extract_version_from_url_invalid() {
    assert_eq!(extract_version_from_url("invalid-url"), None);
}

#[test]
fn test_trim_whitespace_in_properties() {
    let content = "  distributionUrl = https://services.gradle.org/distributions/gradle-8.5-bin.zip  \n";
    let version = get_gradle_version(&Some(content.to_string()));
    assert_eq!(version, "8.5");
}

// =========================================================================
// Maven
// =========================================================================

#[test]
fn test_parse_distribution_url_standard_format() {
    let url = "https://repo.maven.apache.org/maven2/org/apache/maven/apache-maven/3.9.6/apache-maven-3.9.6-bin.zip";
    let version = extract_maven_version(url);
    assert_eq!(version, Some("3.9.6".to_string()));
}

#[test]
fn test_parse_distribution_url_different_version() {
    let url = "https://repo.maven.apache.org/maven2/org/apache/maven/apache-maven/3.8.1/apache-maven-3.8.1-bin.zip";
    let version = extract_maven_version(url);
    assert_eq!(version, Some("3.8.1".to_string()));
}

#[test]
fn test_parse_distribution_url_alternative_repo() {
    let url = "https://example.com/maven/apache-maven/4.0.0/apache-maven-4.0.0-bin.zip";
    let version = extract_maven_version(url);
    assert_eq!(version, Some("4.0.0".to_string()));
}

#[test]
fn test_malformed_url_no_version() {
    let url = "https://repo.maven.apache.org/maven2/somefile.zip";
    let version = extract_maven_version(url);
    assert_eq!(version, None);
}

#[test]
fn test_empty_url() {
    let version = extract_maven_version("");
    assert_eq!(version, None);
}

#[test]
fn test_get_maven_version_from_wrapper_properties() {
    let content = "# Maven Wrapper Properties\n\
                   distributionUrl=https://repo.maven.apache.org/maven2/org/apache/maven/apache-maven/3.9.6/apache-maven-3.9.6-bin.zip\n\
                   wrapperUrl=https://repo.maven.apache.org/maven2/org/apache/maven/wrapper/maven-wrapper/3.2.0/maven-wrapper-3.2.0.jar\n";
    let version = get_maven_version(&Some(content.to_string()));
    assert_eq!(version, "3.9.6");
}

#[test]
fn test_missing_wrapper_file_defaults_to_latest() {
    let version = get_maven_version(&None);
    assert_eq!(version, "latest");
}

#[test]
fn test_wrapper_properties_without_distribution_url() {
    let content = "# Maven Wrapper Properties\nsomeOtherProperty=value\n";
    let version = get_maven_version(&Some(content.to_string()));
    assert_eq!(version, "latest");
}

#[test]
fn test_malformed_distribution_url_defaults_to_latest() {
    let content = "distributionUrl=https://invalid.url/notmaven.zip\n";
    let version = get_maven_version(&Some(content.to_string()));
    assert_eq!(version, "latest");
}

#[test]
fn test_distribution_url_with_whitespace() {
    let content = "  distributionUrl=https://repo.maven.apache.org/maven2/org/apache/maven/apache-maven/3.8.5/apache-maven-3.8.5-bin.zip  \n";
    let version = get_maven_version(&Some(content.to_string()));
    assert_eq!(version, "3.8.5");
}

#[test]
fn test_multiple_properties_extracts_correct_version() {
    let content = "property1=value1\n\
                   property2=value2\n\
                   distributionUrl=https://repo.maven.apache.org/maven2/org/apache/maven/apache-maven/3.9.0/apache-maven-3.9.0-bin.zip\n\
                   property3=value3\n";
    let version = get_maven_version(&Some(content.to_string()));
    assert_eq!(version, "3.9.0");
}
