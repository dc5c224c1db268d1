//! The records that the service exchanges, and the body of an asset update.
use crate::json::{
    join_members, json_object, json_str_of, member_text, object_of_members, opt_text, optional_member,
    plain_json_text, push_optional_member, quoted, texts,
};
use vstd::prelude::*;
use vstd::string::*;

verus! {

/// The fields of a release to be created; absent fields are left out of the
/// request.
#[derive(Debug, Clone, PartialEq, Eq)]
pub struct CreateReleaseInfo {
    pub tag_name: String,
    pub target_commitish: Option<String>,
    pub name: Option<String>,
    pub body: Option<String>,
    pub draft: Option<bool>,
    pub prerelease: Option<bool>,
    pub discussion_category_name: Option<String>,
    pub generate_release_notes: Option<bool>,
    pub make_latest: Option<String>,
}

/// The fields of a tag object to be created.
#[derive(Debug, Clone, PartialEq, Eq)]
pub struct TagInfo {
    pub tag: String,
    pub message: String,
    pub object: String,
    /// The kind of object tagged (the `type` member).
    pub type_tagged: String,
}

/// A release as a git reference.
#[derive(Debug, Clone, PartialEq, Eq)]
pub struct Release {
    pub node_id: String,
    pub sha: Option<String>,
    pub url: String,
    pub tag: Option<String>,
    pub message: Option<String>,
}

/// A tag object.
#[derive(Debug, Clone, PartialEq, Eq)]
pub struct Tag {
    pub node_id: String,
    pub tag: String,
    pub sha: String,
    pub url: String,
    pub message: String,
}

/// A release.
#[derive(Debug, Clone, PartialEq, Eq)]
pub struct ReleaseInfo {
    pub url: String,
    pub html_url: String,
    pub assets_url: String,
    pub upload_url: String,
    pub tarball_url: Option<String>,
    pub zipball_url: Option<String>,
    pub discussion_url: Option<String>,
    pub id: u64,
    pub node_id: String,
    pub tag_name: String,
    pub target_commitish: String,
    pub name: Option<String>,
    pub body: Option<String>,
    pub draft: bool,
    pub prerelease: bool,
    pub created_at: String,
    pub published_at: Option<String>,
    pub author: Author,
    pub assets: Vec<AssetInfo>,
}

/// An asset of a release.
#[derive(Debug, Clone, PartialEq, Eq)]
pub struct AssetInfo {
    pub url: String,
    pub browser_download_url: String,
    pub id: u64,
    pub node_id: String,
    pub name: String,
    pub label: Option<String>,
    pub state: String,
    pub content_type: String,
    pub size: u64,
    pub download_count: u64,
    pub created_at: String,
    pub updated_at: String,
    pub uploader: Uploader,
}

/// The author of a release.
#[derive(Debug, Clone, PartialEq, Eq)]
pub struct Author {
    pub login: String,
    pub id: u64,
    pub node_id: String,
    pub name: Option<String>,
    pub email: Option<String>,
    pub avatar_url: String,
    pub gravatar_id: Option<String>,
    pub url: String,
    pub html_url: String,
    pub followers_url: String,
    pub following_url: String,
    pub gists_url: String,
    pub starred_url: String,
    pub subscriptions_url: String,
    pub organizations_url: String,
    pub repos_url: String,
    pub events_url: String,
    pub received_events_url: String,
    /// The kind of account (the `type` member).
    pub account_type: String,
    pub site_admin: bool,
}

/// The account that uploaded an asset.
#[derive(Debug, Clone, PartialEq, Eq)]
pub struct Uploader {
    pub login: String,
    pub id: u64,
    pub node_id: String,
    pub avatar_url: String,
    pub gravatar_id: Option<String>,
    pub url: String,
    pub html_url: String,
    pub followers_url: String,
    pub following_url: String,
    pub gists_url: String,
    pub starred_url: String,
    pub subscriptions_url: String,
    pub organizations_url: String,
    pub repos_url: String,
    pub events_url: String,
    pub received_events_url: String,
    /// The kind of account (the `type` member).
    pub account_type: String,
    pub site_admin: bool,
}

/// A partial update of an asset: each present field is changed, absent ones
/// are left as they are.
#[derive(Debug, Clone, PartialEq, Eq)]
pub struct UpdateAssetInfo {
    pub name: Option<String>,
    pub label: Option<String>,
    pub state: Option<String>,
}

/// The JSON body of an asset update: an object with the members `name`,
/// `label` and `state`, in that order, each only where it is present.
pub open spec fn update_asset_json(
    name: Option<Seq<char>>,
    label: Option<Seq<char>>,
    state: Option<Seq<char>>,
) -> Seq<char> {
    json_object(
        optional_member("name"@, name) + optional_member("label"@, label) + optional_member(
            "state"@,
            state,
        ),
    )
}

impl UpdateAssetInfo {
    /// The JSON body of the update.
    pub open spec fn json_spec(&self) -> Seq<char> {
        update_asset_json(opt_text(self.name), opt_text(self.label), opt_text(self.state))
    }

    /// Only the label is set, and JSON writes it as it is.
    pub open spec fn is_plain_label_only(&self) -> bool {
        &&& self.name is None
        &&& self.state is None
        &&& self.label matches Some(l) && plain_json_text(l@)
    }

    /// Encodes the update as a JSON object.
    pub fn to_json(&self) -> (r: String)
        ensures
            r@ == self.json_spec(),
            self.is_plain_label_only() ==> r@ == "{\"label\":\""@ + self.label->Some_0@
                + "\"}"@,
    {
        let mut members: Vec<String> = Vec::new();
        push_optional_member(&mut members, "name", &self.name);
        push_optional_member(&mut members, "label", &self.label);
        push_optional_member(&mut members, "state", &self.state);
        assert(texts(members@) =~= optional_member("name"@, opt_text(self.name)) + optional_member(
            "label"@,
            opt_text(self.label),
        ) + optional_member("state"@, opt_text(self.state)));
        let r = object_of_members(&members);
        proof {
            if self.is_plain_label_only() {
                let l = self.label->Some_0@;
                let m = member_text("label"@, l);
                assert(texts(members@) =~= seq![m]);
                assert(join_members(seq![m]) == m);
                reveal_strlit("{");
                reveal_strlit("}");
                reveal_strlit("\"");
                reveal_strlit("\":");
                reveal_strlit("label");
                reveal_strlit("{\"label\":\"");
                reveal_strlit("\"}");
                assert(m == "\""@ + "label"@ + "\":"@ + quoted(l));
                assert(r@ =~= "{\"label\":\""@ + l + "\"}"@);
            }
        }
        r
    }
}

/// An update with no field set encodes as the empty object, and one with only
/// a label encodes as an object whose sole member is that label.
pub proof fn lemma_update_asset_body(label: Seq<char>)
    ensures
        update_asset_json(None, None, None) == "{}"@,
        update_asset_json(None, Some(label), None) == "{\"label\":"@ + json_str_of(label) + "}"@,
{
    reveal_strlit("{}");
    reveal_strlit("{");
    reveal_strlit("}");
    reveal_strlit("{\"label\":");
    reveal_strlit("\"");
    reveal_strlit("label");
    reveal_strlit("\":");
    let m: Seq<Seq<char>> = seq![];
    assert(optional_member("name"@, None) + optional_member("label"@, None) + optional_member(
        "state"@,
        None,
    ) =~= m);
    assert(update_asset_json(None, None, None) =~= "{}"@);
    let one = seq![member_text("label"@, label)];
    assert(optional_member("name"@, None) + optional_member("label"@, Some(label))
        + optional_member("state"@, None) =~= one);
    assert(update_asset_json(None, Some(label), None) =~= "{\"label\":"@ + json_str_of(label)
        + "}"@);
}

} // verus!
