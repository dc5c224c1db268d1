//! The operations on releases and assets, as authenticated requests.
use crate::pipeline::{
    authorization_for, is_prepared, pairs_view, prepare_authenticated, Body, Method,
    OutboundRequest,
};
use crate::release::UpdateAssetInfo;
use crate::url::{
    asset_url, asset_url_spec, decimal, decimal_string, latest_url, latest_url_spec,
    release_assets, release_assets_spec, tag_url, tag_url_spec, upload_asset_url,
    upload_asset_url_spec,
};
use crate::RepoInfo;
use vstd::prelude::*;
use vstd::string::*;

verus! {

/// Page size of a listing where the caller gives none.
pub const DEFAULT_PER_PAGE: u64 = 30;

/// Page of a listing where the caller gives none.
pub const DEFAULT_PAGE: u64 = 1;

/// Holds the credential of one client; every request it prepares carries it.
pub struct ReleaseClient {
    auth_token: String,
}

impl View for ReleaseClient {
    /// The value of the authorization header.
    type V = Seq<char>;

    closed spec fn view(&self) -> Seq<char> {
        self.auth_token@
    }
}

/// A request with the given parts and no headers yet.
pub open spec fn is_plain_request(
    r: OutboundRequest,
    method: Method,
    url: Seq<char>,
    query: Seq<(Seq<char>, Seq<char>)>,
    content_type: Option<Seq<char>>,
    body: Body,
) -> bool {
    &&& r.method == method
    &&& r.url@ == url
    &&& pairs_view(r.query@) == query
    &&& r.headers@.len() == 0
    &&& match (r.content_type, content_type) {
        (Some(c), Some(t)) => c@ == t,
        (None, None) => true,
        _ => false,
    }
    &&& r.body == body
}

/// A request with the given parts that carries the client's three headers.
pub open spec fn is_request(
    r: OutboundRequest,
    client: Seq<char>,
    method: Method,
    url: Seq<char>,
    query: Seq<(Seq<char>, Seq<char>)>,
    content_type: Option<Seq<char>>,
    body: Body,
) -> bool {
    exists|plain: OutboundRequest|
        is_plain_request(plain, method, url, query, content_type, body) && #[trigger] is_prepared(
            r,
            plain,
            client,
        )
}

/// The query of a listing: page size, then page, each with its default.
pub open spec fn pagination_query(per_page: Option<u64>, page: Option<u64>) -> Seq<
    (Seq<char>, Seq<char>),
> {
    seq![
        ("per_page"@, decimal(per_page.unwrap_or(DEFAULT_PER_PAGE) as nat)),
        ("page"@, decimal(page.unwrap_or(DEFAULT_PAGE) as nat)),
    ]
}

/// The query of an upload: asset name, then label (empty where absent).
pub open spec fn upload_query(asset_name: Seq<char>, label: Option<Seq<char>>) -> Seq<
    (Seq<char>, Seq<char>),
> {
    seq![("name"@, asset_name), ("label"@, label.unwrap_or(seq![]))]
}

fn plain_request(
    method: Method,
    url: String,
    query: Vec<(String, String)>,
    content_type: Option<String>,
    body: Body,
) -> (r: OutboundRequest)
    ensures
        r.method == method,
        r.url == url,
        r.query == query,
        r.headers@.len() == 0,
        r.content_type == content_type,
        r.body == body,
{
    OutboundRequest { method, url, query, headers: Vec::new(), content_type, body }
}

fn text_pair(key: &str, value: String) -> (r: (String, String))
    ensures
        r.0@ == key@,
        r.1 == value,
{
    (String::from_str(key), value)
}

impl ReleaseClient {
    /// A client for the credential given, or else for the one found in the
    /// environment; none where neither is there.
    pub fn new(auth_token: Option<String>, environment_token: Option<String>) -> (r: Option<
        ReleaseClient,
    >)
        ensures
            auth_token is Some ==> (r matches Some(c) && c@ == authorization_for(
                auth_token->Some_0@,
            )),
            auth_token is None && environment_token is Some ==> (r matches Some(c) && c@
                == authorization_for(environment_token->Some_0@)),
            auth_token is None && environment_token is None ==> r is None,
    {
        let credential = match auth_token {
            Some(t) => t,
            None => match environment_token {
                Some(t) => t,
                None => {
                    return None;
                },
            },
        };
        let header = String::from_str("token ");
        let header = header.concat(credential.as_str());
        Some(ReleaseClient { auth_token: header })
    }

    fn authenticated(&self, request: OutboundRequest) -> (r: OutboundRequest)
        ensures
            is_prepared(r, request, self@),
    {
        prepare_authenticated(request, self.auth_token.as_str())
    }

    /// `GET` of one asset.
    pub fn get_release_asset(&self, repo_info: &RepoInfo, asset_id: u64) -> (r: OutboundRequest)
        ensures
            is_request(
                r,
                self@,
                Method::Get,
                asset_url_spec(repo_info.owner@, repo_info.repo_name@, asset_id as nat),
                seq![],
                None,
                Body::Empty,
            ),
    {
        let plain = plain_request(
            Method::Get,
            asset_url(repo_info, asset_id),
            Vec::new(),
            None,
            Body::Empty,
        );
        assert(pairs_view(plain.query@) =~= seq![]);
        self.authenticated(plain)
    }

    /// `PATCH` of one asset; the body is the JSON of the update where one is
    /// given, and empty otherwise.
    pub fn update_release_asset(
        &self,
        repo_info: &RepoInfo,
        asset_id: u64,
        asset_info: Option<UpdateAssetInfo>,
    ) -> (r: OutboundRequest)
        ensures
            asset_info is None ==> is_request(
                r,
                self@,
                Method::Patch,
                asset_url_spec(repo_info.owner@, repo_info.repo_name@, asset_id as nat),
                seq![],
                None,
                Body::Empty,
            ),
            asset_info matches Some(info) ==> exists|body: String|
                body@ == info.json_spec() && #[trigger] is_request(
                    r,
                    self@,
                    Method::Patch,
                    asset_url_spec(repo_info.owner@, repo_info.repo_name@, asset_id as nat),
                    seq![],
                    None,
                    Body::Json(body),
                ),
            asset_info matches Some(info) ==> (info.is_plain_label_only() ==> info.json_spec()
                == "{\"label\":\""@ + info.label->Some_0@ + "\"}"@),
    {
        let url = asset_url(repo_info, asset_id);
        match asset_info {
            None => {
                let plain = plain_request(Method::Patch, url, Vec::new(), None, Body::Empty);
                assert(pairs_view(plain.query@) =~= seq![]);
                self.authenticated(plain)
            },
            Some(info) => {
                let json = info.to_json();
                let ghost text = json;
                let plain = plain_request(Method::Patch, url, Vec::new(), None, Body::Json(json));
                assert(pairs_view(plain.query@) =~= seq![]);
                let r = self.authenticated(plain);
                assert(is_request(
                    r,
                    self@,
                    Method::Patch,
                    asset_url_spec(repo_info.owner@, repo_info.repo_name@, asset_id as nat),
                    seq![],
                    None,
                    Body::Json(text),
                ));
                r
            },
        }
    }

    /// `DELETE` of one asset.
    pub fn delete_release_asset(&self, repo_info: &RepoInfo, asset_id: u64) -> (r:
        OutboundRequest)
        ensures
            is_request(
                r,
                self@,
                Method::Delete,
                asset_url_spec(repo_info.owner@, repo_info.repo_name@, asset_id as nat),
                seq![],
                None,
                Body::Empty,
            ),
    {
        let plain = plain_request(
            Method::Delete,
            asset_url(repo_info, asset_id),
            Vec::new(),
            None,
            Body::Empty,
        );
        assert(pairs_view(plain.query@) =~= seq![]);
        self.authenticated(plain)
    }

    /// `GET` of one page of the assets of a release.
    pub fn list_release_assets(
        &self,
        repo_info: &RepoInfo,
        release_id: u64,
        per_page: Option<u64>,
        page: Option<u64>,
    ) -> (r: OutboundRequest)
        ensures
            is_request(
                r,
                self@,
                Method::Get,
                release_assets_spec(repo_info.owner@, repo_info.repo_name@, release_id as nat),
                pagination_query(per_page, page),
                None,
                Body::Empty,
            ),
    {
        let per_page_value = match per_page {
            Some(n) => n,
            None => DEFAULT_PER_PAGE,
        };
        let page_value = match page {
            Some(n) => n,
            None => DEFAULT_PAGE,
        };
        let mut query: Vec<(String, String)> = Vec::new();
        query.push(text_pair("per_page", decimal_string(per_page_value)));
        query.push(text_pair("page", decimal_string(page_value)));
        let plain = plain_request(
            Method::Get,
            release_assets(repo_info, release_id),
            query,
            None,
            Body::Empty,
        );
        assert(pairs_view(plain.query@) =~= pagination_query(per_page, page));
        self.authenticated(plain)
    }

    /// `POST` of a new asset to the upload host; the transport sends the
    /// content as the body, with the content type given.
    pub fn upload_release_asset(
        &self,
        repo_info: &RepoInfo,
        release_id: u64,
        asset_name: &str,
        content_type: &str,
        label: Option<&str>,
    ) -> (r: OutboundRequest)
        ensures
            is_request(
                r,
                self@,
                Method::Post,
                upload_asset_url_spec(repo_info.owner@, repo_info.repo_name@, release_id as nat),
                upload_query(
                    asset_name@,
                    match label {
                        Some(l) => Some(l@),
                        None => None,
                    },
                ),
                Some(content_type@),
                Body::Content,
            ),
    {
        let label_text = match label {
            Some(l) => String::from_str(l),
            None => String::new(),
        };
        let mut query: Vec<(String, String)> = Vec::new();
        query.push(text_pair("name", String::from_str(asset_name)));
        query.push(text_pair("label", label_text));
        let plain = plain_request(
            Method::Post,
            upload_asset_url(repo_info, release_id),
            query,
            Some(String::from_str(content_type)),
            Body::Content,
        );
        assert(pairs_view(plain.query@) =~= upload_query(
            asset_name@,
            match label {
                Some(l) => Some(l@),
                None => None,
            },
        ));
        self.authenticated(plain)
    }

    /// `GET` of the release tagged `tag`.
    pub fn get_release_by_tag_name(&self, repo_info: &RepoInfo, tag: &str) -> (r: OutboundRequest)
        ensures
            is_request(
                r,
                self@,
                Method::Get,
                tag_url_spec(repo_info.owner@, repo_info.repo_name@, tag@),
                seq![],
                None,
                Body::Empty,
            ),
    {
        let plain = plain_request(Method::Get, tag_url(repo_info, tag), Vec::new(), None, Body::Empty);
        assert(pairs_view(plain.query@) =~= seq![]);
        self.authenticated(plain)
    }

    /// `GET` of the latest release.
    pub fn get_latest_release(&self, repo_info: &RepoInfo) -> (r: OutboundRequest)
        ensures
            is_request(
                r,
                self@,
                Method::Get,
                latest_url_spec(repo_info.owner@, repo_info.repo_name@),
                seq![],
                None,
                Body::Empty,
            ),
    {
        let plain = plain_request(Method::Get, latest_url(repo_info), Vec::new(), None, Body::Empty);
        assert(pairs_view(plain.query@) =~= seq![]);
        self.authenticated(plain)
    }
}

/// A listing with neither page size nor page asks for thirty items of the
/// first page.
pub proof fn lemma_default_pagination()
    ensures
        pagination_query(None, None) == seq![("per_page"@, "30"@), ("page"@, "1"@)],
{
    reveal_strlit("30");
    reveal_strlit("1");
    reveal_with_fuel(decimal, 2);
    assert(decimal(30) =~= "30"@);
    assert(decimal(1) =~= "1"@);
}

} // verus!
