use crate::RepoInfo;
use vstd::prelude::*;
use vstd::string::*;

verus! {

/// Host of all metadata operations.
pub const API_URL: &'static str = "https://api.github.com";

/// Host of binary asset uploads.
pub const UPLOAD_URL: &'static str = "https://uploads.github.com";

/// The character of a decimal digit.
pub open spec fn digit_char(d: nat) -> char {
    if d == 0 {
        '0'
    } else if d == 1 {
        '1'
    } else if d == 2 {
        '2'
    } else if d == 3 {
        '3'
    } else if d == 4 {
        '4'
    } else if d == 5 {
        '5'
    } else if d == 6 {
        '6'
    } else if d == 7 {
        '7'
    } else if d == 8 {
        '8'
    } else {
        '9'
    }
}

/// The decimal text of a natural number, without leading zeros.
pub open spec fn decimal(n: nat) -> Seq<char>
    decreases n,
{
    if n < 10 {
        seq![digit_char(n)]
    } else {
        decimal(n / 10) + seq![digit_char(n % 10)]
    }
}

/// `<host>/repos/{owner}/{name}/releases`
pub open spec fn releases_under(host: Seq<char>, owner: Seq<char>, name: Seq<char>) -> Seq<char> {
    host + "/repos/"@ + owner + "/"@ + name + "/releases"@
}

/// The release collection of a repository on the API host.
pub open spec fn release_url_spec(owner: Seq<char>, name: Seq<char>) -> Seq<char> {
    releases_under(API_URL@, owner, name)
}

/// The address to which a new asset of a release is uploaded.
pub open spec fn upload_asset_url_spec(owner: Seq<char>, name: Seq<char>, release_id: nat) -> Seq<char> {
    releases_under(UPLOAD_URL@, owner, name) + "/"@ + decimal(release_id) + "/assets"@
}

/// The list of assets of a release.
pub open spec fn release_assets_spec(owner: Seq<char>, name: Seq<char>, release_id: nat) -> Seq<char> {
    release_url_spec(owner, name) + "/"@ + decimal(release_id) + "/assets"@
}

/// One asset, by id.
pub open spec fn asset_url_spec(owner: Seq<char>, name: Seq<char>, asset_id: nat) -> Seq<char> {
    release_url_spec(owner, name) + "/assets/"@ + decimal(asset_id)
}

/// A release, by tag name.
pub open spec fn tag_url_spec(owner: Seq<char>, name: Seq<char>, tag: Seq<char>) -> Seq<char> {
    release_url_spec(owner, name) + "/tags/"@ + tag
}

/// The latest release.
pub open spec fn latest_url_spec(owner: Seq<char>, name: Seq<char>) -> Seq<char> {
    release_url_spec(owner, name) + "/latest"@
}

fn digit_str(d: u64) -> (r: &'static str)
    requires
        d < 10,
    ensures
        r@ == seq![digit_char(d as nat)],
{
    proof {
        reveal_strlit("0");
        reveal_strlit("1");
        reveal_strlit("2");
        reveal_strlit("3");
        reveal_strlit("4");
        reveal_strlit("5");
        reveal_strlit("6");
        reveal_strlit("7");
        reveal_strlit("8");
        reveal_strlit("9");
    }
    if d == 0 {
        "0"
    } else if d == 1 {
        "1"
    } else if d == 2 {
        "2"
    } else if d == 3 {
        "3"
    } else if d == 4 {
        "4"
    } else if d == 5 {
        "5"
    } else if d == 6 {
        "6"
    } else if d == 7 {
        "7"
    } else if d == 8 {
        "8"
    } else {
        "9"
    }
}

/// The decimal text of `n`.
pub fn decimal_string(n: u64) -> (r: String)
    ensures
        r@ == decimal(n as nat),
    decreases n,
{
    if n < 10 {
        let s = String::from_str(digit_str(n));
        assert(s@ =~= seq![digit_char(n as nat)]);
        s
    } else {
        let mut s = decimal_string(n / 10);
        s.append(digit_str(n % 10));
        s
    }
}

fn releases_under_host(host: &str, repo_info: &RepoInfo) -> (r: String)
    ensures
        r@ == releases_under(host@, repo_info.owner@, repo_info.repo_name@),
{
    let mut s = String::from_str(host);
    s.append("/repos/");
    s.append(repo_info.owner);
    s.append("/");
    s.append(repo_info.repo_name);
    s.append("/releases");
    s
}

/// The release collection of a repository.
pub fn release_url(repo_info: &RepoInfo) -> (r: String)
    ensures
        r@ == release_url_spec(repo_info.owner@, repo_info.repo_name@),
{
    releases_under_host(API_URL, repo_info)
}

/// The upload address for a new asset of release `asset_id` (a release id).
pub fn upload_asset_url(repo_info: &RepoInfo, asset_id: u64) -> (r: String)
    ensures
        r@ == upload_asset_url_spec(repo_info.owner@, repo_info.repo_name@, asset_id as nat),
{
    let mut s = releases_under_host(UPLOAD_URL, repo_info);
    s.append("/");
    let id = decimal_string(asset_id);
    s.append(id.as_str());
    s.append("/assets");
    s
}

/// The list of assets of release `release_id`.
pub fn release_assets(repo_info: &RepoInfo, release_id: u64) -> (r: String)
    ensures
        r@ == release_assets_spec(repo_info.owner@, repo_info.repo_name@, release_id as nat),
{
    let mut s = release_url(repo_info);
    s.append("/");
    let id = decimal_string(release_id);
    s.append(id.as_str());
    s.append("/assets");
    s
}

/// The asset `asset_id`.
pub fn asset_url(repo_info: &RepoInfo, asset_id: u64) -> (r: String)
    ensures
        r@ == asset_url_spec(repo_info.owner@, repo_info.repo_name@, asset_id as nat),
{
    let mut s = release_url(repo_info);
    s.append("/assets/");
    let id = decimal_string(asset_id);
    s.append(id.as_str());
    s
}

/// The release tagged `tag`.
pub fn tag_url(repo_info: &RepoInfo, tag: &str) -> (r: String)
    ensures
        r@ == tag_url_spec(repo_info.owner@, repo_info.repo_name@, tag@),
{
    let mut s = release_url(repo_info);
    s.append("/tags/");
    s.append(tag);
    s
}

/// The latest release of the repository.
pub fn latest_url(repo_info: &RepoInfo) -> (r: String)
    ensures
        r@ == latest_url_spec(repo_info.owner@, repo_info.repo_name@),
{
    let mut s = release_url(repo_info);
    s.append("/latest");
    s
}

} // verus!
