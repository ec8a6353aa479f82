use bu::tool_cache::ToolCache;
use bu::toolchain::{
    chain_step, ChainProvider, ChainStep, HostProvider, Provider, ToolError, UrlProvider,
};

// =========================================================================
// Cache paths
// =========================================================================

#[test]
fn test_tool_path_structure() {
    let cache = ToolCache::with_dir("/tmp/bu-test-cache".to_string());
    let path = cache.get_tool_path("buck2", "2024-01-01");
    assert!(path.starts_with("/tmp/bu-test-cache/"));
    assert!(path.ends_with("/buck2"));
    assert_eq!(path, "/tmp/bu-test-cache/buck2/2024-01-01/buck2");
}

#[test]
fn test_tool_path_deterministic() {
    let c1 = ToolCache::with_dir("/root-a".to_string());
    let c2 = ToolCache::with_dir("/root-a".to_string());
    assert_eq!(
        c1.get_tool_path("deno", "1.40.0"),
        c2.get_tool_path("deno", "1.40.0")
    );
    assert_eq!(
        c1.get_tool_path("deno", "1.40.0"),
        c1.get_tool_path("deno", "1.40.0")
    );
}

#[test]
fn test_cache_dir_reports_root() {
    let cache = ToolCache::with_dir("/somewhere/else".to_string());
    assert_eq!(cache.cache_dir(), "/somewhere/else");
}

#[test]
fn test_is_installed_missing_entry() {
    let cache = ToolCache::with_dir("/nonexistent-bu-root-for-tests".to_string());
    assert!(!cache.is_installed("buck2", "2024-01-01"));
}

// =========================================================================
// Chain fallback
// =========================================================================

fn two_provider_chain() -> ChainProvider {
    ChainProvider::new(vec![
        Provider::Host(HostProvider),
        Provider::Host(HostProvider),
    ])
}

#[test]
fn test_chain_provider_fallback() {
    let chain = two_provider_chain();
    let outcomes: Vec<Result<String, ToolError>> = vec![
        Err(ToolError::NotFound("".to_string())),
        Ok("found".to_string()),
    ];
    assert!(chain.fold_outcomes("t", &outcomes).is_ok());
}

#[test]
fn test_chain_first_success_wins() {
    let chain = two_provider_chain();
    let outcomes: Vec<Result<String, ToolError>> = vec![
        Ok("first".to_string()),
        Ok("second".to_string()),
    ];
    assert_eq!(chain.fold_outcomes("t", &outcomes), Ok("first".to_string()));
}

#[test]
fn test_chain_all_fail_reports_last_error() {
    let chain = two_provider_chain();
    let outcomes: Vec<Result<String, ToolError>> = vec![
        Err(ToolError::NotFound("first".to_string())),
        Err(ToolError::StrategyFailure(
            "UrlProvider".to_string(),
            "last".to_string(),
        )),
    ];
    assert_eq!(
        chain.fold_outcomes("t", &outcomes),
        Err(ToolError::StrategyFailure(
            "UrlProvider".to_string(),
            "last".to_string()
        ))
    );
}

#[test]
fn test_empty_chain_is_not_found() {
    let chain = ChainProvider::new(vec![]);
    let outcomes: Vec<Result<String, ToolError>> = vec![];
    assert_eq!(
        chain.fold_outcomes("sometool", &outcomes),
        Err(ToolError::NotFound("sometool".to_string()))
    );
}

#[test]
fn test_chain_exposes_providers_in_order() {
    let chain = ChainProvider::new(vec![
        Provider::Url(UrlProvider {
            url_template: "https://example/{version}".to_string(),
            sha256: None,
        }),
        Provider::Host(HostProvider),
    ]);
    assert_eq!(chain.len(), 2);
    assert!(matches!(chain.provider(0), Provider::Url(_)));
    assert!(matches!(chain.provider(1), Provider::Host(_)));
}

#[test]
fn test_chain_step_short_circuits_on_success() {
    assert_eq!(
        chain_step(Ok("/a/path".to_string())),
        ChainStep::Done("/a/path".to_string())
    );
    assert_eq!(
        chain_step(Err(ToolError::NotFound("t".to_string()))),
        ChainStep::Continue(ToolError::NotFound("t".to_string()))
    );
}

// =========================================================================
// Host provider
// =========================================================================

#[test]
fn test_host_evaluate_found() {
    let r = HostProvider::evaluate("cargo", Some("/usr/bin/cargo".to_string()));
    assert_eq!(r, Ok("/usr/bin/cargo".to_string()));
}

#[test]
fn test_host_evaluate_not_found() {
    let r = HostProvider::evaluate("cargo", None);
    assert_eq!(r, Err(ToolError::NotFound("cargo".to_string())));
}
