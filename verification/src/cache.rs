//! Decisions of the local cache of the price list and the item data.
//!
//! The files themselves are read, written and downloaded by the caller; this
//! module decides where they live, what a server response means for them and
//! how the outcome is reported.

use vstd::prelude::*;
use vstd::string::StringExecFns;

use crate::config::{opt_view, path_join, Config, ConfigView};
use crate::settings::parsed_path;
use crate::text::{chars_of, decimal, decimal_string, string_from_chars, trim_chars};

verus! {

/// Where the price list is downloaded from.
pub const PRICES_URL: &'static str = "https://api.warframestat.us/wfinfo/prices/";

/// Where the filtered item data is downloaded from.
pub const FILTERED_ITEMS_URL: &'static str = "https://api.warframestat.us/wfinfo/filtered_items/";

/// File name of the cached price list.
pub const PRICES_FILE_NAME: &'static str = "prices.json";

/// File name of the cached filtered item data.
pub const FILTERED_ITEMS_FILE_NAME: &'static str = "filtered_items.json";

/// What happened to a cached file.
#[derive(Clone, Debug, PartialEq, Eq, Structural)]
pub enum CacheRefreshState {
    /// A new version was downloaded and stored.
    Updated,
    /// The server confirmed the cached version is current.
    NotModified,
    /// No refresh was attempted.
    Skipped,
    /// The refresh failed; the cached file was left alone.
    Failed,
}

/// Outcome of refreshing one cached file.
#[derive(Clone, Debug, PartialEq, Eq)]
pub struct CachedFileRefreshResult {
    pub path: String,
    pub etag: Option<String>,
    pub http_status: Option<u16>,
    pub state: CacheRefreshState,
    pub message: String,
}

/// Mathematical view of a `CachedFileRefreshResult`.
pub struct FileRefreshView {
    pub path: Seq<char>,
    pub etag: Option<Seq<char>>,
    pub http_status: Option<u16>,
    pub state: CacheRefreshState,
    pub message: Seq<char>,
}

impl View for CachedFileRefreshResult {
    type V = FileRefreshView;

    open spec fn view(&self) -> FileRefreshView {
        FileRefreshView {
            path: self.path@,
            etag: opt_view(self.etag),
            http_status: self.http_status,
            state: self.state,
            message: self.message@,
        }
    }
}

/// Outcome of refreshing both cached files.
#[derive(Clone, Debug, PartialEq, Eq)]
pub struct DatabaseRefreshResult {
    pub prices: CachedFileRefreshResult,
    pub items: CachedFileRefreshResult,
}

/// A server's answer to a download request.
#[derive(Clone, Debug, PartialEq, Eq)]
pub struct FetchResponse {
    pub status: u16,
    pub etag: Option<String>,
    pub body: Option<String>,
}

/// Why a refresh could not be carried out.
#[derive(Clone, Debug, PartialEq, Eq)]
pub enum RefreshError {
    /// The server answered 200 for the URL without a body.
    MissingBody(String),
    /// The downloaded text for the destination is not JSON.
    InvalidJson(String),
    /// A refresh failed; its message.
    Failed(String),
    /// No cache directory is known.
    NoCacheDirectory,
}

/// What the caller must do after a server response, and what to report.
#[derive(Clone, Debug)]
pub struct RefreshPlan {
    /// Text to store at the destination, replacing the cached file.
    pub write_body: Option<String>,
    /// ETag to store beside the destination.
    pub write_etag: Option<String>,
    /// Whether a valid cached file must already be present; when it is not,
    /// the refresh fails.
    pub require_cached_file: bool,
    /// The outcome to report once the steps above succeeded.
    pub result: CachedFileRefreshResult,
}

/// Whether `text` is JSON, as `serde_json` decides.
pub uninterp spec fn json_text_valid(text: Seq<char>) -> bool;

#[verifier::external_type_specification]
#[verifier::external_body]
pub struct ExJsonValue(serde_json::Value);

/// `serde_json::from_str` into a JSON value; `Some` exactly when the text is
/// JSON.
#[verifier::external_body]
fn parse_json(text: &str) -> (r: Option<serde_json::Value>)
    ensures
        r is Some <==> json_text_valid(text@),
{
    serde_json::from_str(text).ok()
}

/// The pretty-printed form of JSON `text`: `serde_json::to_string_pretty` of
/// the value that `serde_json::from_str` reads from it.
pub uninterp spec fn json_pretty_text(text: Seq<char>) -> Seq<char>;

/// `serde_json::from_str` into a JSON value, then
/// `serde_json::to_string_pretty` of that value: the pretty form of `text`
/// exactly when `text` is JSON, since printing a `serde_json::Value` into a
/// string does not fail; `None` for text that is not JSON.
#[verifier::external_body]
fn pretty_json_text(text: &str) -> (r: Option<String>)
    ensures
        r is Some <==> json_text_valid(text@),
        r matches Some(t) ==> t@ == json_pretty_text(text@),
{
    let value: serde_json::Value = serde_json::from_str(text).ok()?;
    serde_json::to_string_pretty(&value).ok()
}

/// `dirs::cache_dir`: the user's cache directory, as text. It depends on the
/// environment, so nothing is stated of it.
/// Paths are held as text here: a directory whose name is not UTF-8 is
/// treated as unknown (`None`).
#[verifier::external_body]
fn cache_dir() -> Option<String> {
    dirs::cache_dir().and_then(|path| path.into_os_string().into_string().ok())
}

/// Whether `text` is JSON.
pub fn is_valid_json(text: &str) -> (b: bool)
    ensures
        b == json_text_valid(text@),
{
    parse_json(text).is_some()
}

/// The ETag stored in an ETag file: its trimmed content, `None` when blank.
pub fn etag_from_text(text: &str) -> (r: Option<String>)
    ensures
        opt_view(r) == parsed_path(text@),
{
    let chars = chars_of(text);
    let trimmed = trim_chars(&chars);
    if trimmed.len() == 0 {
        None
    } else {
        Some(string_from_chars(&trimmed))
    }
}

/// Paths of the cached price list and item data: the configured ones, or
/// else the default file names in `default_dir`.
pub open spec fn database_paths(c: ConfigView, default_dir: Seq<char>) -> (Seq<char>, Seq<char>) {
    (
        match c.prices_file_path {
            Some(p) => p,
            None => path_join(default_dir, "prices.json"@),
        },
        match c.items_file_path {
            Some(p) => p,
            None => path_join(default_dir, "filtered_items.json"@),
        },
    )
}

/// Each cached file's path depends only on its own setting: a configured
/// path is used as it is, whatever the other setting is; an unset one is the
/// default file name in the default directory.
pub proof fn law_database_paths_independent(c: ConfigView, default_dir: Seq<char>)
    ensures
        c.prices_file_path matches Some(p) ==> database_paths(c, default_dir).0 == p,
        c.prices_file_path is None ==> database_paths(c, default_dir).0 == path_join(
            default_dir,
            "prices.json"@,
        ),
        c.items_file_path matches Some(p) ==> database_paths(c, default_dir).1 == p,
        c.items_file_path is None ==> database_paths(c, default_dir).1 == path_join(
            default_dir,
            "filtered_items.json"@,
        ),
        forall|other: ConfigView|
            other.prices_file_path == c.prices_file_path ==> #[trigger] database_paths(
                other,
                default_dir,
            ).0 == database_paths(c, default_dir).0,
        forall|other: ConfigView|
            other.items_file_path == c.items_file_path ==> #[trigger] database_paths(
                other,
                default_dir,
            ).1 == database_paths(c, default_dir).1,
{
}

/// Computes `database_paths`.
pub fn resolve_database_paths_in_dir(config: &Config, default_dir: &str) -> (r: (String, String))
    ensures
        (r.0@, r.1@) == database_paths(config@, default_dir@),
        config.prices_file_path matches Some(p) ==> r.0@ == p@,
        config.prices_file_path is None ==> r.0@ == path_join(default_dir@, "prices.json"@),
        config.items_file_path matches Some(p) ==> r.1@ == p@,
        config.items_file_path is None ==> r.1@ == path_join(
            default_dir@,
            "filtered_items.json"@,
        ),
{
    let prices = match &config.prices_file_path {
        Some(p) => p.clone(),
        None => crate::config::join_path(default_dir, PRICES_FILE_NAME),
    };
    let items = match &config.items_file_path {
        Some(p) => p.clone(),
        None => crate::config::join_path(default_dir, FILTERED_ITEMS_FILE_NAME),
    };
    proof {
        reveal_strlit("prices.json");
        reveal_strlit("filtered_items.json");
    }
    (prices, items)
}

/// The directory holding the cached files below the user's cache directory.
pub fn default_database_dir_in(cache: &str) -> (r: String)
    ensures
        r@ == path_join(cache@, "wfinfo-ng"@),
{
    crate::config::join_path(cache, "wfinfo-ng")
}

/// Paths of the cached files (see `database_paths`) given the user's cache
/// directory, with the default directory below it; `NoCacheDirectory`
/// exactly when that directory is unknown, even when both paths are
/// configured.
pub fn resolve_database_paths_from(config: &Config, cache: Option<String>) -> (r: Result<
    (String, String),
    RefreshError,
>)
    ensures
        match cache {
            Some(c) => r matches Ok(paths) && (paths.0@, paths.1@) == database_paths(
                config@,
                path_join(c@, "wfinfo-ng"@),
            ),
            None => r matches Err(e) && e is NoCacheDirectory,
        },
{
    match cache {
        Some(c) => {
            let dir = default_database_dir_in(c.as_str());
            Ok(resolve_database_paths_in_dir(config, dir.as_str()))
        },
        None => Err(RefreshError::NoCacheDirectory),
    }
}

/// Paths of the cached files below the user's cache directory (see
/// `resolve_database_paths_from`); `NoCacheDirectory` when that directory is
/// unknown.
pub fn resolve_database_paths(config: &Config) -> (r: Result<(String, String), RefreshError>)
    ensures
        r matches Err(e) ==> e is NoCacheDirectory,
        r matches Ok(paths) ==> exists|cache: Seq<char>|
            (paths.0@, paths.1@) == database_paths(config@, path_join(cache, "wfinfo-ng"@)),
{
    resolve_database_paths_from(config, cache_dir())
}

/// What a server response means for a cached file, given the destination,
/// the stored ETag and the response:
/// - 200 with a JSON body: store its pretty form (`json_pretty_text`) and, when the
///   server sent one, its ETag; report `Updated`;
/// - 200 without a body, or with a body that is not JSON: an error;
/// - 304: keep the file, which must be present; report `NotModified`;
/// - 503 and every other status: touch nothing; report `Failed`.
pub open spec fn plan_matches(
    url: Seq<char>,
    destination: Seq<char>,
    existing_etag: Option<Seq<char>>,
    status: u16,
    response_etag: Option<Seq<char>>,
    body: Option<Seq<char>>,
    r: Result<RefreshPlan, RefreshError>,
) -> bool {
    if status == 200 {
        match body {
            None => r matches Err(RefreshError::MissingBody(u)) && u@ == url,
            Some(b) => if !json_text_valid(b) {
                r matches Err(RefreshError::InvalidJson(d)) && d@ == destination
            } else {
                match r {
                    Ok(plan) => {
                        &&& plan.write_body matches Some(w) && w@ == json_pretty_text(b)
                        &&& opt_view(plan.write_etag) == response_etag
                        &&& !plan.require_cached_file
                        &&& plan.result@ == FileRefreshView {
                            path: destination,
                            etag: match response_etag {
                                Some(e) => Some(e),
                                None => existing_etag,
                            },
                            http_status: Some(status),
                            state: CacheRefreshState::Updated,
                            message: "Updated from HTTP "@ + decimal(status as nat),
                        }
                    },
                    Err(_) => false,
                }
            },
        }
    } else {
        match r {
            Ok(plan) => {
                &&& plan.write_body is None
                &&& plan.write_etag is None
                &&& plan.require_cached_file == (status == 304)
                &&& plan.result@ == FileRefreshView {
                    path: destination,
                    etag: existing_etag,
                    http_status: Some(status),
                    state: if status == 304 {
                        CacheRefreshState::NotModified
                    } else {
                        CacheRefreshState::Failed
                    },
                    message: if status == 304 {
                        "Cache is current (HTTP 304 Not Modified)"@
                    } else if status == 503 {
                        "Refresh failed: service temporarily unavailable (HTTP 503)"@
                    } else {
                        "Refresh failed with HTTP "@ + decimal(status as nat)
                    },
                }
            },
            Err(_) => false,
        }
    }
}

/// Decides what a server response means for a cached file (see
/// `plan_matches`).
pub fn plan_refresh(
    url: &str,
    destination: &str,
    existing_etag: Option<String>,
    response: FetchResponse,
) -> (r: Result<RefreshPlan, RefreshError>)
    ensures
        plan_matches(
            url@,
            destination@,
            opt_view(existing_etag),
            response.status,
            opt_view(response.etag),
            opt_view(response.body),
            r,
        ),
{
    let status = response.status;
    if status == 200 {
        let body = match response.body {
            Some(body) => body,
            None => {
                return Err(RefreshError::MissingBody(url.to_owned()));
            },
        };
        let text = match pretty_json_text(body.as_str()) {
            Some(text) => text,
            None => {
                return Err(RefreshError::InvalidJson(destination.to_owned()));
            },
        };
        let etag = match &response.etag {
            Some(e) => Some(e.clone()),
            None => existing_etag,
        };
        let message = "Updated from HTTP ".to_owned().concat(decimal_string(status as u64).as_str());
        Ok(
            RefreshPlan {
                write_body: Some(text),
                write_etag: response.etag,
                require_cached_file: false,
                result: CachedFileRefreshResult {
                    path: destination.to_owned(),
                    etag,
                    http_status: Some(status),
                    state: CacheRefreshState::Updated,
                    message,
                },
            },
        )
    } else if status == 304 {
        Ok(
            RefreshPlan {
                write_body: None,
                write_etag: None,
                require_cached_file: true,
                result: CachedFileRefreshResult {
                    path: destination.to_owned(),
                    etag: existing_etag,
                    http_status: Some(status),
                    state: CacheRefreshState::NotModified,
                    message: "Cache is current (HTTP 304 Not Modified)".to_owned(),
                },
            },
        )
    } else {
        let message = if status == 503 {
            "Refresh failed: service temporarily unavailable (HTTP 503)".to_owned()
        } else {
            "Refresh failed with HTTP ".to_owned().concat(decimal_string(status as u64).as_str())
        };
        Ok(
            RefreshPlan {
                write_body: None,
                write_etag: None,
                require_cached_file: false,
                result: CachedFileRefreshResult {
                    path: destination.to_owned(),
                    etag: existing_etag,
                    http_status: Some(status),
                    state: CacheRefreshState::Failed,
                    message,
                },
            },
        )
    }
}

/// A failed refresh is an error carrying its message.
pub fn ensure_file_refresh_succeeded(result: &CachedFileRefreshResult) -> (r: Result<(), RefreshError>)
    ensures
        match r {
            Ok(()) => result.state != CacheRefreshState::Failed,
            Err(e) => {
                &&& result.state == CacheRefreshState::Failed
                &&& e matches RefreshError::Failed(m) && m@ == result.message@
            },
        },
{
    if result.state == CacheRefreshState::Failed {
        Err(RefreshError::Failed(result.message.clone()))
    } else {
        Ok(())
    }
}

/// Both refreshes must have succeeded; the price list is checked first.
pub fn ensure_refresh_succeeded(result: &DatabaseRefreshResult) -> (r: Result<(), RefreshError>)
    ensures
        r is Ok <==> (result.prices.state != CacheRefreshState::Failed && result.items.state
            != CacheRefreshState::Failed),
        r matches Err(RefreshError::Failed(m)) ==> if result.prices.state
            == CacheRefreshState::Failed {
            m@ == result.prices.message@
        } else {
            m@ == result.items.message@
        },
        r matches Err(e) ==> e is Failed,
{
    ensure_file_refresh_succeeded(&result.prices)?;
    ensure_file_refresh_succeeded(&result.items)?;
    Ok(())
}

/// The status of a cached file named `label` when no refresh is attempted.
pub open spec fn skipped_status(
    path: Seq<char>,
    label: Seq<char>,
    etag: Option<Seq<char>>,
    exists: bool,
) -> FileRefreshView {
    FileRefreshView {
        path,
        etag,
        http_status: None,
        state: CacheRefreshState::Skipped,
        message: if exists {
            label + " is present"@
        } else {
            label + " is not downloaded"@
        },
    }
}

/// Status of a cached file when no refresh is attempted.
pub fn cached_file_status(path: &str, label: &str, etag: Option<String>, exists: bool) -> (r:
    CachedFileRefreshResult)
    ensures
        r@ == skipped_status(path@, label@, opt_view(etag), exists),
{
    CachedFileRefreshResult {
        path: path.to_owned(),
        etag,
        http_status: None,
        state: CacheRefreshState::Skipped,
        message: if exists {
            label.to_owned().concat(" is present")
        } else {
            label.to_owned().concat(" is not downloaded")
        },
    }
}

/// Status of both cached files without refreshing them, given each file's
/// path, stored ETag and whether it exists.
pub fn database_cache_status_of(
    prices_path: &str,
    prices_etag: Option<String>,
    prices_exists: bool,
    items_path: &str,
    items_etag: Option<String>,
    items_exists: bool,
) -> (r: DatabaseRefreshResult)
    ensures
        r.prices@ == skipped_status(
            prices_path@,
            "Price data cache"@,
            opt_view(prices_etag),
            prices_exists,
        ),
        r.items@ == skipped_status(
            items_path@,
            "Filtered item data cache"@,
            opt_view(items_etag),
            items_exists,
        ),
{
    DatabaseRefreshResult {
        prices: cached_file_status(prices_path, "Price data cache", prices_etag, prices_exists),
        items: cached_file_status(items_path, "Filtered item data cache", items_etag, items_exists),
    }
}

/// Whether a cached file must be downloaded before use, given its text
/// (`None` when it cannot be read): exactly when it is missing or not JSON.
pub fn download_needed(cached: Option<&str>) -> (b: bool)
    ensures
        b == !(cached matches Some(t) && json_text_valid(t@)),
{
    match cached {
        Some(text) => !is_valid_json(text),
        None => true,
    }
}

/// A response whose status is neither 200 nor 304 leaves the cached file and
/// its ETag untouched and reports a failure that keeps the stored ETag.
pub proof fn law_error_status_keeps_cache(
    url: Seq<char>,
    destination: Seq<char>,
    existing_etag: Option<Seq<char>>,
    status: u16,
    response_etag: Option<Seq<char>>,
    body: Option<Seq<char>>,
    r: Result<RefreshPlan, RefreshError>,
)
    requires
        status != 200,
        status != 304,
        plan_matches(url, destination, existing_etag, status, response_etag, body, r),
    ensures
        r matches Ok(plan) && plan.write_body is None && plan.write_etag is None
            && plan.result.state == CacheRefreshState::Failed && opt_view(plan.result.etag)
            == existing_etag,
{
}

/// A successful download without an ETag keeps the stored ETag and writes
/// none.
pub proof fn law_missing_etag_keeps_stored(
    url: Seq<char>,
    destination: Seq<char>,
    existing_etag: Option<Seq<char>>,
    body: Seq<char>,
    r: Result<RefreshPlan, RefreshError>,
)
    requires
        json_text_valid(body),
        plan_matches(url, destination, existing_etag, 200, None, Some(body), r),
        r is Ok,
    ensures
        r matches Ok(plan) && plan.write_etag is None && opt_view(plan.result.etag)
            == existing_etag && plan.result.state == CacheRefreshState::Updated,
{
}

} // verus!
