use std::path::{Path, PathBuf};

use wfinfo::cache::{
    cached_file_status, database_cache_status_of, download_needed, ensure_file_refresh_succeeded, ensure_refresh_succeeded, etag_from_text,
    is_valid_json, plan_refresh, resolve_database_paths_from, resolve_database_paths_in_dir, CacheRefreshState,
    CachedFileRefreshResult, DatabaseRefreshResult, FetchResponse, RefreshError,
    FILTERED_ITEMS_FILE_NAME, FILTERED_ITEMS_URL, PRICES_FILE_NAME, PRICES_URL,
};
use wfinfo::config::Config;

fn response(status: u16, etag: Option<&str>, body: Option<&str>) -> FetchResponse {
    FetchResponse {
        status,
        etag: etag.map(|s| s.to_string()),
        body: body.map(|s| s.to_string()),
    }
}

#[test]
fn configured_database_paths_are_respected() {
    let config = Config {
        prices_file_path: Some("/custom/prices.json".to_string()),
        items_file_path: Some("/custom/items.json".to_string()),
        ..Config::default()
    };

    let paths = resolve_database_paths_in_dir(&config, "/default");

    assert_eq!(paths.0, "/custom/prices.json");
    assert_eq!(paths.1, "/custom/items.json");
}

#[test]
fn default_database_paths_use_app_cache_directory() {
    let config = Config::default();

    let paths = resolve_database_paths_in_dir(&config, "/default/cache/wfinfo-ng");

    assert_eq!(
        PathBuf::from(&paths.0),
        PathBuf::from("/default/cache/wfinfo-ng").join(PRICES_FILE_NAME)
    );
    assert_eq!(
        PathBuf::from(&paths.1),
        PathBuf::from("/default/cache/wfinfo-ng").join(FILTERED_ITEMS_FILE_NAME)
    );
}

#[test]
fn default_paths_agree_with_std_join() {
    let config = Config::with_home(None);
    for dir in ["", "/", "rel/dir", "/abs/dir/"] {
        let paths = resolve_database_paths_in_dir(&config, dir);
        assert_eq!(
            paths.0,
            Path::new(dir).join(PRICES_FILE_NAME).to_string_lossy()
        );
        assert_eq!(
            paths.1,
            Path::new(dir).join(FILTERED_ITEMS_FILE_NAME).to_string_lossy()
        );
    }
}

#[test]
fn successful_download_is_written_pretty_with_etag() {
    let plan = plan_refresh(
        PRICES_URL,
        "/c/prices.json",
        None,
        response(200, Some("\"prices-v1\""), Some(r#"[{"item_name":"Forma"}]"#)),
    )
    .unwrap();
    assert_eq!(
        plan.write_body.as_deref(),
        Some("[\n  {\n    \"item_name\": \"Forma\"\n  }\n]")
    );
    assert_eq!(plan.write_etag.as_deref(), Some("\"prices-v1\""));
    assert!(!plan.require_cached_file);
    assert_eq!(plan.result.state, CacheRefreshState::Updated);
    assert_eq!(plan.result.etag.as_deref(), Some("\"prices-v1\""));
    assert_eq!(plan.result.http_status, Some(200));
    assert_eq!(plan.result.message, "Updated from HTTP 200");
    assert_eq!(plan.result.path, "/c/prices.json");
}

#[test]
fn valid_json_is_written_pretty() {
    let plan = plan_refresh(
        PRICES_URL,
        "prices.json",
        None,
        response(200, None, Some(r#"{"name":"Forma","value":3}"#)),
    )
    .unwrap();
    assert!(plan.write_body.unwrap().contains("\"name\": \"Forma\""));
}

#[test]
fn invalid_json_is_refused_before_any_write() {
    let err = plan_refresh(
        PRICES_URL,
        "/c/prices.json",
        Some("\"old\"".to_string()),
        response(200, Some("\"new\""), Some("not json")),
    )
    .unwrap_err();
    assert_eq!(err, RefreshError::InvalidJson("/c/prices.json".to_string()));
}

#[test]
fn ok_without_body_is_an_error() {
    let err = plan_refresh(PRICES_URL, "/c/prices.json", None, response(200, None, None))
        .unwrap_err();
    assert_eq!(err, RefreshError::MissingBody(PRICES_URL.to_string()));
}

#[test]
fn missing_etag_keeps_stored_etag() {
    let plan = plan_refresh(
        FILTERED_ITEMS_URL,
        "/c/items.json",
        Some("\"items-v1\"".to_string()),
        response(200, None, Some("{}")),
    )
    .unwrap();
    assert_eq!(plan.write_etag, None);
    assert_eq!(plan.result.etag.as_deref(), Some("\"items-v1\""));
}

#[test]
fn not_modified_keeps_file_and_needs_cache() {
    let plan = plan_refresh(
        PRICES_URL,
        "/c/prices.json",
        Some("\"prices-v1\"".to_string()),
        response(304, None, None),
    )
    .unwrap();
    assert!(plan.write_body.is_none());
    assert!(plan.write_etag.is_none());
    assert!(plan.require_cached_file);
    assert_eq!(plan.result.state, CacheRefreshState::NotModified);
    assert_eq!(plan.result.etag.as_deref(), Some("\"prices-v1\""));
    assert_eq!(plan.result.message, "Cache is current (HTTP 304 Not Modified)");
}

#[test]
fn error_status_does_not_overwrite_cached_file_or_etag() {
    let plan = plan_refresh(
        PRICES_URL,
        "/c/prices.json",
        Some("\"prices-v1\"".to_string()),
        response(500, Some("\"should-not-write\""), Some(r#"["server"]"#)),
    )
    .unwrap();
    assert!(plan.write_body.is_none());
    assert!(plan.write_etag.is_none());
    assert!(!plan.require_cached_file);
    assert_eq!(plan.result.state, CacheRefreshState::Failed);
    assert_eq!(plan.result.etag.as_deref(), Some("\"prices-v1\""));
    assert_eq!(plan.result.message, "Refresh failed with HTTP 500");
}

#[test]
fn service_unavailable_does_not_overwrite_cached_file_or_etag() {
    let plan = plan_refresh(
        PRICES_URL,
        "/c/prices.json",
        Some("\"prices-v1\"".to_string()),
        response(503, Some("\"should-not-write\""), Some(r#"["server"]"#)),
    )
    .unwrap();
    assert!(plan.write_body.is_none());
    assert!(plan.write_etag.is_none());
    assert_eq!(plan.result.state, CacheRefreshState::Failed);
    assert_eq!(plan.result.http_status, Some(503));
    assert!(plan.result.message.contains("temporarily unavailable"));
}

#[test]
fn unusual_status_codes_fail() {
    for status in [0u16, 99, 201, 404, 1000, 65535] {
        let plan = plan_refresh(PRICES_URL, "p", None, response(status, None, Some("[]"))).unwrap();
        assert_eq!(plan.result.state, CacheRefreshState::Failed);
        assert_eq!(
            plan.result.message,
            format!("Refresh failed with HTTP {}", status)
        );
    }
}

#[test]
fn failed_refresh_is_an_error_with_its_message() {
    let failed = CachedFileRefreshResult {
        path: "p".to_string(),
        etag: None,
        http_status: Some(500),
        state: CacheRefreshState::Failed,
        message: "Refresh failed with HTTP 500".to_string(),
    };
    let ok = CachedFileRefreshResult {
        state: CacheRefreshState::NotModified,
        message: "fine".to_string(),
        ..failed.clone()
    };
    assert_eq!(
        ensure_file_refresh_succeeded(&failed),
        Err(RefreshError::Failed("Refresh failed with HTTP 500".to_string()))
    );
    assert_eq!(ensure_file_refresh_succeeded(&ok), Ok(()));
    let both = DatabaseRefreshResult {
        prices: ok.clone(),
        items: failed.clone(),
    };
    assert_eq!(
        ensure_refresh_succeeded(&both),
        Err(RefreshError::Failed("Refresh failed with HTTP 500".to_string()))
    );
    let fine = DatabaseRefreshResult {
        prices: ok.clone(),
        items: ok,
    };
    assert_eq!(ensure_refresh_succeeded(&fine), Ok(()));
}

#[test]
fn cache_status_messages() {
    let present = cached_file_status("/c/p.json", "Price data cache", Some("v".to_string()), true);
    assert_eq!(present.message, "Price data cache is present");
    assert_eq!(present.state, CacheRefreshState::Skipped);
    assert_eq!(present.http_status, None);
    assert_eq!(present.etag.as_deref(), Some("v"));
    let missing = cached_file_status("/c/i.json", "Filtered item data cache", None, false);
    assert_eq!(missing.message, "Filtered item data cache is not downloaded");
}

#[test]
fn etag_file_text_is_trimmed() {
    assert_eq!(etag_from_text("\"v1\"\n"), Some("\"v1\"".to_string()));
    assert_eq!(etag_from_text("  \n"), None);
}

#[test]
fn json_validity() {
    assert!(is_valid_json("[]"));
    assert!(is_valid_json("{\"a\": 1}"));
    assert!(!is_valid_json("invalid"));
    assert!(!is_valid_json(""));
}

#[test]
fn download_is_needed_for_missing_or_invalid_files() {
    assert!(download_needed(None));
    assert!(download_needed(Some("{not json")));
    assert!(download_needed(Some("")));
    assert!(!download_needed(Some(r#"{"Forma Blueprint": 10}"#)));
}

#[test]
fn cache_status_labels_both_files() {
    let status = database_cache_status_of(
        "/c/prices.json",
        Some("\"abc\"".to_string()),
        true,
        "/c/filtered_items.json",
        None,
        false,
    );
    assert_eq!(status.prices.message, "Price data cache is present");
    assert_eq!(status.prices.etag.as_deref(), Some("\"abc\""));
    assert_eq!(status.prices.state, CacheRefreshState::Skipped);
    assert_eq!(status.items.message, "Filtered item data cache is not downloaded");
    assert_eq!(status.items.path, "/c/filtered_items.json");
    assert_eq!(status.items.http_status, None);
}

#[test]
fn downloaded_body_is_stored_in_pretty_form() {
    let plan = plan_refresh(
        PRICES_URL,
        "/c/prices.json",
        None,
        response(200, None, Some(r#"{"a":[1,2]}"#)),
    )
    .unwrap();
    assert_eq!(
        plan.write_body.as_deref(),
        Some("{\n  \"a\": [\n    1,\n    2\n  ]\n}")
    );
}

#[test]
fn database_paths_need_a_cache_directory() {
    let mut config = Config::default();
    config.prices_file_path = Some("/custom/prices.json".to_string());
    config.items_file_path = Some("/custom/items.json".to_string());
    assert_eq!(
        resolve_database_paths_from(&config, None),
        Err(RefreshError::NoCacheDirectory)
    );

    let config = Config::default();
    let (prices, items) =
        resolve_database_paths_from(&config, Some("/home/tenno/.cache".to_string())).unwrap();
    assert_eq!(prices, "/home/tenno/.cache/wfinfo-ng/prices.json");
    assert_eq!(items, "/home/tenno/.cache/wfinfo-ng/filtered_items.json");
}

#[test]
fn body_that_is_not_json_is_refused() {
    let err = plan_refresh(PRICES_URL, "/c/prices.json", None, response(200, None, Some("[1,")))
        .unwrap_err();
    assert_eq!(err, RefreshError::InvalidJson("/c/prices.json".to_string()));
}
