use github_release::url::{
    asset_url, decimal_string, latest_url, release_assets, release_url, tag_url,
    upload_asset_url,
};
use github_release::RepoInfo;

fn repo() -> RepoInfo<'static> {
    RepoInfo { owner: "o", repo_name: "r" }
}

#[test]
fn release_collection_url() {
    assert_eq!(release_url(&repo()), "https://api.github.com/repos/o/r/releases");
}

#[test]
fn asset_by_id_url() {
    assert_eq!(asset_url(&repo(), 42), "https://api.github.com/repos/o/r/releases/assets/42");
}

#[test]
fn release_assets_list_url() {
    assert_eq!(
        release_assets(&repo(), 7),
        "https://api.github.com/repos/o/r/releases/7/assets"
    );
}

#[test]
fn tag_lookup_url() {
    assert_eq!(tag_url(&repo(), "v1.0"), "https://api.github.com/repos/o/r/releases/tags/v1.0");
}

#[test]
fn latest_release_url() {
    assert_eq!(latest_url(&repo()), "https://api.github.com/repos/o/r/releases/latest");
}

#[test]
fn upload_uses_upload_host() {
    assert_eq!(
        upload_asset_url(&repo(), 123),
        "https://uploads.github.com/repos/o/r/releases/123/assets"
    );
}

#[test]
fn values_substituted_verbatim() {
    let r = RepoInfo { owner: "my org", repo_name: "a%20b" };
    assert_eq!(tag_url(&r, "v 1/x"), "https://api.github.com/repos/my org/a%20b/releases/tags/v 1/x");
}

#[test]
fn decimal_text_of_ids() {
    assert_eq!(decimal_string(0), "0");
    assert_eq!(decimal_string(9), "9");
    assert_eq!(decimal_string(10), "10");
    assert_eq!(decimal_string(1234567890), "1234567890");
    assert_eq!(decimal_string(u64::MAX), "18446744073709551615");
}

#[test]
fn largest_id_in_url() {
    assert_eq!(
        asset_url(&repo(), u64::MAX),
        "https://api.github.com/repos/o/r/releases/assets/18446744073709551615"
    );
}
