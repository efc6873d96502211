use vstd::prelude::*;
use crate::error::{ErrorView, ValyuError};
use crate::invoke::Endpoint;
use crate::json::{
    add_field, json_string, members, members_map, no_fields, object_members, to_object, Field,
    FieldView, JsonObject,
};
use crate::text::{decimal, u64_to_decimal};

verus! {

#[verifier::external_type_specification]
#[verifier::external_body]
pub struct ExHttpClient(reqwest::Client);

/// Relies on `Clone` for `reqwest::Client`, which shares the connection pool;
/// nothing is claimed of the copy.
pub assume_specification[ <reqwest::Client as Clone>::clone ](c: &reqwest::Client) -> reqwest::Client;

/// Base URL of the Valyu API.
pub const API_BASE_URL: &'static str = "https://api.valyu.ai/v1";

/// The HTTP method of a request.
#[derive(Clone, Copy, Debug, PartialEq, Eq, Structural)]
pub enum Method {
    Get,
    Post,
    Delete,
}

/// A request ready to be sent: method, URL, headers and JSON body.
#[derive(Debug)]
pub struct HttpRequest {
    /// The method.
    pub method: Method,
    /// The full URL.
    pub url: String,
    /// Header names and values, in order.
    pub headers: Vec<(String, String)>,
    /// The JSON body, where one is sent.
    pub body: Option<JsonObject>,
}

/// The method of each endpoint.
pub open spec fn method_of(e: Endpoint) -> Method {
    match e {
        Endpoint::TaskStatus | Endpoint::ListTasks => Method::Get,
        Endpoint::DeleteTask => Method::Delete,
        _ => Method::Post,
    }
}

/// The path of an endpoint under the base URL. `target` is the task id, or
/// for the task list the API key id; `limit` bounds the task list.
pub open spec fn path_of(e: Endpoint, target: Seq<char>, limit: Option<u32>) -> Seq<char> {
    match e {
        Endpoint::Search => "/deepsearch"@,
        Endpoint::Contents => "/contents"@,
        Endpoint::Answer => "/answer"@,
        Endpoint::CreateTask => "/deepresearch/tasks"@,
        Endpoint::TaskStatus => "/deepresearch/tasks/"@ + target + "/status"@,
        Endpoint::ListTasks => "/deepresearch/list?api_key_id="@ + target + match limit {
            Some(n) => "&limit="@ + decimal(n as nat),
            None => Seq::<char>::empty(),
        },
        Endpoint::UpdateTask => "/deepresearch/tasks/"@ + target + "/update"@,
        Endpoint::CancelTask => "/deepresearch/tasks/"@ + target + "/cancel"@,
        Endpoint::DeleteTask => "/deepresearch/tasks/"@ + target + "/delete"@,
    }
}

/// The view of a list of headers.
pub open spec fn headers_view(h: Seq<(String, String)>) -> Seq<(Seq<char>, Seq<char>)> {
    h.map_values(|p: (String, String)| (p.0@, p.1@))
}

/// The headers of a request: the content type where a body is sent, then the API key.
pub open spec fn headers_of(api_key: Seq<char>, has_body: bool) -> Seq<(Seq<char>, Seq<char>)> {
    if has_body {
        seq![("Content-Type"@, "application/json"@), ("x-api-key"@, api_key)]
    } else {
        seq![("x-api-key"@, api_key)]
    }
}

/// Relies on `reqwest::ClientBuilder::build` on a default builder
/// (`reqwest::Client::builder()`): an HTTP client with default settings, or
/// the error that kept it from being set up. Nothing is claimed of either.
#[verifier::external_body]
fn build_http_client() -> (r: Result<reqwest::Client, reqwest::Error>) {
    reqwest::Client::builder().build()
}

/// The fixed configuration of a connection to the API: key, base URL and
/// HTTP client.
#[derive(Clone, Debug)]
pub struct ValyuClient {
    api_key: String,
    client: reqwest::Client,
    base_url: String,
}

impl ValyuClient {
    /// The API key.
    pub closed spec fn key(&self) -> Seq<char> {
        self.api_key@
    }

    /// The base URL.
    pub closed spec fn base(&self) -> Seq<char> {
        self.base_url@
    }

    /// The HTTP client.
    pub closed spec fn http_client(&self) -> reqwest::Client {
        self.client
    }

    /// A client for the public API with the given key, with a default HTTP
    /// client; a transport error where that client cannot be set up.
    pub fn new(api_key: &str) -> (r: Result<Self, ValyuError>)
        ensures
            r is Ok ==> r->Ok_0.key() == api_key@ && r->Ok_0.base() == API_BASE_URL@,
            r is Err ==> r->Err_0@ == ErrorView::RequestFailed,
    {
        Self::with_base_url(api_key, API_BASE_URL)
    }

    /// A client with the given key for the API under another base URL, with
    /// a default HTTP client; a transport error where that client cannot be
    /// set up.
    pub fn with_base_url(api_key: &str, base_url: &str) -> (r: Result<Self, ValyuError>)
        ensures
            r is Ok ==> r->Ok_0.key() == api_key@ && r->Ok_0.base() == base_url@,
            r is Err ==> r->Err_0@ == ErrorView::RequestFailed,
    {
        match build_http_client() {
            Ok(client) => Ok(
                ValyuClient {
                    api_key: String::from_str(api_key),
                    client,
                    base_url: String::from_str(base_url),
                },
            ),
            Err(e) => Err(ValyuError::RequestFailed(e)),
        }
    }

    /// A client with the given key that sends through the given HTTP client.
    pub fn with_client(api_key: &str, client: reqwest::Client) -> (r: Self)
        ensures
            r.key() == api_key@,
            r.base() == API_BASE_URL@,
            r.http_client() == client,
    {
        ValyuClient {
            api_key: String::from_str(api_key),
            client,
            base_url: String::from_str(API_BASE_URL),
        }
    }

    /// The API key.
    pub fn api_key(&self) -> (r: &str)
        ensures
            r@ == self.key(),
    {
        self.api_key.as_str()
    }

    /// The base URL.
    pub fn base_url(&self) -> (r: &str)
        ensures
            r@ == self.base(),
    {
        self.base_url.as_str()
    }

    /// The HTTP client.
    pub fn http(&self) -> (r: &reqwest::Client)
        ensures
            *r == self.http_client(),
    {
        &self.client
    }

    /// The request for one call of `endpoint`: its method, its URL under the
    /// base URL, the JSON content type where `body` is given, and the API key.
    pub fn prepare(
        &self,
        endpoint: Endpoint,
        target: &str,
        limit: Option<u32>,
        body: Option<JsonObject>,
    ) -> (r: HttpRequest)
        ensures
            r.method == method_of(endpoint),
            r.url@ == self.base() + path_of(endpoint, target@, limit),
            headers_view(r.headers@) == headers_of(self.key(), body is Some),
            r.body == body,
    {
        let method = match endpoint {
            Endpoint::TaskStatus | Endpoint::ListTasks => Method::Get,
            Endpoint::DeleteTask => Method::Delete,
            _ => Method::Post,
        };
        let path = match endpoint {
            Endpoint::Search => String::from_str("/deepsearch"),
            Endpoint::Contents => String::from_str("/contents"),
            Endpoint::Answer => String::from_str("/answer"),
            Endpoint::CreateTask => String::from_str("/deepresearch/tasks"),
            Endpoint::TaskStatus => String::from_str("/deepresearch/tasks/").concat(target).concat(
                "/status",
            ),
            Endpoint::ListTasks => {
                let head = String::from_str("/deepresearch/list?api_key_id=").concat(target);
                match limit {
                    Some(n) => head.concat("&limit=").concat(u64_to_decimal(n as u64).as_str()),
                    None => head,
                }
            },
            Endpoint::UpdateTask => String::from_str("/deepresearch/tasks/").concat(target).concat(
                "/update",
            ),
            Endpoint::CancelTask => String::from_str("/deepresearch/tasks/").concat(target).concat(
                "/cancel",
            ),
            Endpoint::DeleteTask => String::from_str("/deepresearch/tasks/").concat(target).concat(
                "/delete",
            ),
        };
        let url = self.base_url.clone().concat(path.as_str());
        let mut headers: Vec<(String, String)> = Vec::new();
        if body.is_some() {
            headers.push((String::from_str("Content-Type"), String::from_str("application/json")));
        }
        headers.push((String::from_str("x-api-key"), self.api_key.clone()));
        assert(headers_view(headers@) =~= headers_of(self.key(), body is Some));
        HttpRequest { method, url, headers, body }
    }
}

/// The JSON body of a task update: one member, `instruction`, whose value
/// is the instruction as a JSON string.
pub fn update_body(instruction: &str) -> (r: JsonObject)
    ensures
        object_members(r) == map!["instruction"@ => json_string(instruction@)],
{
    let mut f = no_fields();
    add_field(&mut f, "instruction", Field::Text(String::from_str(instruction)));
    let ghost m = members(f@);
    assert(m.drop_last() =~= Seq::<(Seq<char>, FieldView)>::empty());
    assert(members_map(m.drop_last()) == Map::<Seq<char>, serde_json::Value>::empty());
    assert(members_map(m) =~= map!["instruction"@ => json_string(instruction@)]);
    to_object(f)
}

} // verus!
