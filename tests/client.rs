use github_release::client::ReleaseClient;
use github_release::error::Error;
use github_release::pipeline::{classify, Body, Dispatch, Method, OutboundRequest, RawResponse};
use github_release::release::UpdateAssetInfo;
use github_release::RepoInfo;

fn repo() -> RepoInfo<'static> {
    RepoInfo { owner: "o", repo_name: "r" }
}

fn client() -> ReleaseClient {
    ReleaseClient::new(Some("abc".to_string()), None).unwrap()
}

fn pairs(v: &[(&str, &str)]) -> Vec<(String, String)> {
    v.iter().map(|(k, x)| (k.to_string(), x.to_string())).collect()
}

fn auth_headers(credential: &str) -> Vec<(String, String)> {
    let auth = format!("token {}", credential);
    pairs(&[
        ("Accept", "application/vnd.github+json"),
        ("User-Agent", "Github-Release-rs"),
        ("Authorization", auth.as_str()),
    ])
}

fn query_of(r: &OutboundRequest) -> Vec<(String, String)> {
    r.query.clone()
}

#[test]
fn no_credential_gives_no_client() {
    assert!(ReleaseClient::new(None, None).is_none());
}

#[test]
fn explicit_credential_preferred() {
    let c = ReleaseClient::new(Some("mine".to_string()), Some("env".to_string())).unwrap();
    let r = c.get_latest_release(&repo());
    assert_eq!(r.headers, auth_headers("mine"));
}

#[test]
fn environment_credential_used() {
    let c = ReleaseClient::new(None, Some("env".to_string())).unwrap();
    let r = c.get_latest_release(&repo());
    assert_eq!(r.headers, auth_headers("env"));
}

#[test]
fn latest_release_scenario() {
    let r = client().get_latest_release(&repo());
    assert_eq!(r.method, Method::Get);
    assert_eq!(r.url, "https://api.github.com/repos/o/r/releases/latest");
    assert!(r.query.is_empty());
    assert_eq!(r.body, Body::Empty);
    assert_eq!(r.headers, auth_headers("abc"));
    let payload = b"{\"tag_name\":\"v1.2.3\",\"id\":1}".to_vec();
    let ok = classify(Dispatch::Completed(RawResponse { status: 200, body: payload.clone() }))
        .unwrap();
    assert_eq!(ok.body, payload);
    let value: serde_json::Value = serde_json::from_slice(&ok.body).unwrap();
    assert_eq!(value.get("tag_name").and_then(|t| t.as_str()), Some("v1.2.3"));
}

#[test]
fn delete_asset_scenario() {
    let r = client().delete_release_asset(&repo(), 42);
    assert_eq!(r.method, Method::Delete);
    assert_eq!(r.url, "https://api.github.com/repos/o/r/releases/assets/42");
    assert_eq!(r.body, Body::Empty);
    assert_eq!(r.headers, auth_headers("abc"));
    let outcome = classify(Dispatch::Completed(RawResponse { status: 204, body: Vec::new() }));
    assert!(outcome.is_ok());
}

#[test]
fn get_asset_request() {
    let r = client().get_release_asset(&repo(), 5);
    assert_eq!(r.method, Method::Get);
    assert_eq!(r.url, "https://api.github.com/repos/o/r/releases/assets/5");
    assert_eq!(r.content_type, None);
}

#[test]
fn list_assets_default_pagination() {
    let r = client().list_release_assets(&repo(), 7, None, None);
    assert_eq!(r.method, Method::Get);
    assert_eq!(r.url, "https://api.github.com/repos/o/r/releases/7/assets");
    assert_eq!(query_of(&r), pairs(&[("per_page", "30"), ("page", "1")]));
}

#[test]
fn list_assets_given_pagination() {
    let r = client().list_release_assets(&repo(), 7, Some(100), Some(3));
    assert_eq!(query_of(&r), pairs(&[("per_page", "100"), ("page", "3")]));
}

#[test]
fn upload_request() {
    let r = client().upload_release_asset(&repo(), 9, "a.zip", "application/zip", Some("Build"));
    assert_eq!(r.method, Method::Post);
    assert_eq!(r.url, "https://uploads.github.com/repos/o/r/releases/9/assets");
    assert_eq!(query_of(&r), pairs(&[("name", "a.zip"), ("label", "Build")]));
    assert_eq!(r.content_type, Some("application/zip".to_string()));
    assert_eq!(r.body, Body::Content);
    assert_eq!(r.headers, auth_headers("abc"));
}

#[test]
fn upload_without_label() {
    let r = client().upload_release_asset(&repo(), 9, "a.zip", "application/zip", None);
    assert_eq!(query_of(&r), pairs(&[("name", "a.zip"), ("label", "")]));
}

#[test]
fn tag_request() {
    let r = client().get_release_by_tag_name(&repo(), "v2");
    assert_eq!(r.url, "https://api.github.com/repos/o/r/releases/tags/v2");
    assert_eq!(r.method, Method::Get);
}

#[test]
fn update_with_no_fields_is_empty_object() {
    let info = UpdateAssetInfo { name: None, label: None, state: None };
    assert_eq!(info.to_json(), "{}");
}

#[test]
fn update_with_only_label() {
    let info = UpdateAssetInfo { name: None, label: Some("x".to_string()), state: None };
    assert_eq!(info.to_json(), "{\"label\":\"x\"}");
}

#[test]
fn update_with_all_fields_escapes_strings() {
    let info = UpdateAssetInfo {
        name: Some("a\"b".to_string()),
        label: Some("l\n".to_string()),
        state: Some("uploaded".to_string()),
    };
    assert_eq!(
        info.to_json(),
        "{\"name\":\"a\\\"b\",\"label\":\"l\\n\",\"state\":\"uploaded\"}"
    );
}

#[test]
fn update_request_carries_json() {
    let info = UpdateAssetInfo { name: Some("n".to_string()), label: None, state: None };
    let r = client().update_release_asset(&repo(), 3, Some(info));
    assert_eq!(r.method, Method::Patch);
    assert_eq!(r.url, "https://api.github.com/repos/o/r/releases/assets/3");
    assert_eq!(r.body, Body::Json("{\"name\":\"n\"}".to_string()));
}

#[test]
fn update_request_without_info_has_no_body() {
    let r = client().update_release_asset(&repo(), 3, None);
    assert_eq!(r.body, Body::Empty);
}

#[test]
fn status_error_reports_not_found() {
    let e = classify(Dispatch::Completed(RawResponse { status: 404, body: b"nope".to_vec() }))
        .unwrap_err();
    assert_eq!(e, Error::HttpError(404, "nope".to_string()));
}

#[test]
fn update_request_with_only_label() {
    let info = UpdateAssetInfo { name: None, label: Some("x".to_string()), state: None };
    let r = client().update_release_asset(&repo(), 42, Some(info));
    assert_eq!(r.method, Method::Patch);
    assert_eq!(r.url, "https://api.github.com/repos/o/r/releases/assets/42");
    assert_eq!(r.body, Body::Json("{\"label\":\"x\"}".to_string()));
    assert_eq!(r.headers, auth_headers("abc"));
}

#[test]
fn update_with_unicode_label() {
    let info = UpdateAssetInfo { name: None, label: Some("caf\u{e9}".to_string()), state: None };
    assert_eq!(info.to_json(), "{\"label\":\"caf\u{e9}\"}");
}
