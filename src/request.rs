//! What each endpoint sends: method, path under the API origin, page and body.
use crate::token::{token_body_text, PostTokenReq};
use vstd::prelude::*;
use vstd::string::StringExecFns;

verus! {

/// The origin and prefix that every endpoint path is relative to.
pub const V2EX_API_DOMAIN: &'static str = "https://www.v2ex.com/api/v2";

/// The HTTP methods that the API's endpoints use.
#[derive(Clone, Copy, Debug, PartialEq, Eq, Structural)]
pub enum Method {
    Get,
    Post,
    Delete,
}

/// One HTTP request of the API: sent as the `p` query parameter when `page`
/// is set, with `body` as a JSON body when it is set.
#[derive(Debug)]
pub struct ApiRequest {
    pub method: Method,
    pub path: String,
    pub page: Option<u32>,
    pub body: Option<String>,
}

/// The page asked for: pages count from 1, and 0 stands for the first.
pub open spec fn page_of(page: u32) -> u32 {
    if page == 0 {
        1
    } else {
        page
    }
}

/// The page that a paginated request asks for.
pub fn effective_page(page: u32) -> (r: u32)
    ensures
        r == page_of(page),
        page == 0 ==> r == 1,
{
    if page == 0 {
        1
    } else {
        page
    }
}

/// The decimal digit `d`.
pub open spec fn digit_char(d: nat) -> char {
    seq!['0', '1', '2', '3', '4', '5', '6', '7', '8', '9'][d as int]
}

/// The decimal text of `n`, without sign or leading zeros.
pub open spec fn decimal_text(n: nat) -> Seq<char>
    decreases n,
{
    if n < 10 {
        seq![digit_char(n)]
    } else {
        decimal_text(n / 10).push(digit_char(n % 10))
    }
}

/// Relies on `u32`'s `Display`, through `to_string`: the decimal digits of
/// the number, without sign or leading zeros.
#[verifier::external_body]
fn decimal(n: u32) -> (r: String)
    ensures
        r@ == decimal_text(n as nat),
{
    n.to_string()
}

/// The value of the `Authorization` header for a bearer token.
pub fn bearer_value(token: &str) -> (r: String)
    ensures
        r@ == "Bearer "@ + token@,
{
    let mut r = String::new();
    r.append("Bearer ");
    r.append(token);
    r
}

/// A request with neither page nor body.
fn plain(method: Method, path: String) -> (r: ApiRequest)
    ensures
        r.method == method,
        r.path == path,
        r.page is None,
        r.body is None,
{
    ApiRequest { method, path, page: None, body: None }
}

/// `prefix`, then the decimal text of `id`, then `suffix`.
fn path_with_id(prefix: &str, id: u32, suffix: &str) -> (r: String)
    ensures
        r@ == prefix@ + decimal_text(id as nat) + suffix@,
{
    let mut r = String::new();
    r.append(prefix);
    let digits = decimal(id);
    r.append(digits.as_str());
    r.append(suffix);
    r
}

/// `prefix`, then `name` as it is, then `suffix`.
fn path_with_name(prefix: &str, name: &str, suffix: &str) -> (r: String)
    ensures
        r@ == prefix@ + name@ + suffix@,
{
    let mut r = String::new();
    r.append(prefix);
    r.append(name);
    r.append(suffix);
    r
}

impl ApiRequest {
    /// The absolute address of the request, without its query.
    pub fn url(&self) -> (r: String)
        ensures
            r@ == V2EX_API_DOMAIN@ + self.path@,
    {
        let mut r = String::new();
        r.append(V2EX_API_DOMAIN);
        r.append(self.path.as_str());
        r
    }
}

/// Asks for one's latest notifications.
pub struct GetNotificationsReq {
    pub page: u32,
}

impl GetNotificationsReq {
    /// `GET /notifications?p={page}`.
    pub fn to_request(&self) -> (r: ApiRequest)
        ensures
            r.method == Method::Get,
            r.path@ == "/notifications"@,
            r.page == Some(page_of(self.page)),
            r.body is None,
    {
        let mut r = plain(Method::Get, String::from_str("/notifications"));
        r.page = Some(effective_page(self.page));
        r
    }
}

/// Deletes one notification.
pub struct DeleteNotificationReq {
    pub notification_id: u32,
}

impl DeleteNotificationReq {
    /// `DELETE /notifications/{id}`.
    pub fn to_request(&self) -> (r: ApiRequest)
        ensures
            r.method == Method::Delete,
            r.path@ == "/notifications/"@ + decimal_text(self.notification_id as nat),
            r.page is None,
            r.body is None,
    {
        proof {
            reveal_strlit("");
        }
        let path = path_with_id("/notifications/", self.notification_id, "");
        plain(Method::Delete, path)
    }
}

/// `GET /member`: one's own profile.
pub fn get_member_request() -> (r: ApiRequest)
    ensures
        r.method == Method::Get,
        r.path@ == "/member"@,
        r.page is None,
        r.body is None,
{
    plain(Method::Get, String::from_str("/member"))
}

/// `GET /token`: the token in use.
pub fn get_token_request() -> (r: ApiRequest)
    ensures
        r.method == Method::Get,
        r.path@ == "/token"@,
        r.page is None,
        r.body is None,
{
    plain(Method::Get, String::from_str("/token"))
}

impl PostTokenReq {
    /// `POST /tokens`, with the scope and lifetime as a JSON body.
    pub fn to_request(&self) -> (r: ApiRequest)
        ensures
            r.method == Method::Post,
            r.path@ == "/tokens"@,
            r.page is None,
            r.body matches Some(b) && b@ == token_body_text(self.scope, self.expiration),
    {
        let mut r = plain(Method::Post, String::from_str("/tokens"));
        r.body = Some(self.json_body());
        r
    }
}

/// Asks for one node by its name.
pub struct GetNodeReq {
    pub node_name: String,
}

impl GetNodeReq {
    /// `GET /nodes/{name}`.
    pub fn to_request(&self) -> (r: ApiRequest)
        ensures
            r.method == Method::Get,
            r.path@ == "/nodes/"@ + self.node_name@,
            r.page is None,
            r.body is None,
    {
        proof {
            reveal_strlit("");
        }
        let path = path_with_name("/nodes/", self.node_name.as_str(), "");
        plain(Method::Get, path)
    }
}

/// Asks for a page of the topics of a node.
pub struct GetNodeTopicsReq {
    pub node_name: String,
    pub page: u32,
}

impl GetNodeTopicsReq {
    /// `GET /nodes/{name}/topics?p={page}`.
    pub fn to_request(&self) -> (r: ApiRequest)
        ensures
            r.method == Method::Get,
            r.path@ == "/nodes/"@ + self.node_name@ + "/topics"@,
            r.page == Some(page_of(self.page)),
            r.body is None,
    {
        let path = path_with_name("/nodes/", self.node_name.as_str(), "/topics");
        let mut r = plain(Method::Get, path);
        r.page = Some(effective_page(self.page));
        r
    }
}

/// Asks for one topic.
pub struct GetTopicReq {
    pub topic_id: u32,
}

impl GetTopicReq {
    /// `GET /topics/{id}`.
    pub fn to_request(&self) -> (r: ApiRequest)
        ensures
            r.method == Method::Get,
            r.path@ == "/topics/"@ + decimal_text(self.topic_id as nat),
            r.page is None,
            r.body is None,
    {
        proof {
            reveal_strlit("");
        }
        let path = path_with_id("/topics/", self.topic_id, "");
        plain(Method::Get, path)
    }
}

/// Asks for a page of the replies to a topic.
pub struct GetTopicRepliesReq {
    pub topic_id: u32,
    pub page: u32,
}

impl GetTopicRepliesReq {
    /// `GET /topics/{id}/replies?p={page}`.
    pub fn to_request(&self) -> (r: ApiRequest)
        ensures
            r.method == Method::Get,
            r.path@ == "/topics/"@ + decimal_text(self.topic_id as nat) + "/replies"@,
            r.page == Some(page_of(self.page)),
            r.body is None,
    {
        let path = path_with_id("/topics/", self.topic_id, "/replies");
        let mut r = plain(Method::Get, path);
        r.page = Some(effective_page(self.page));
        r
    }
}

} // verus!
