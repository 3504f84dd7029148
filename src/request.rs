//! Where requests go and what they carry: the daemon and catalog addresses,
//! the request of each daemon operation, and the client's argument list.
use vstd::prelude::*;
use crate::text::strings_view;

verus! {

/// Addresses the bridge talks to, fixed at startup.
pub struct BridgeConfig {
    pub daemon_base_url: String,
    pub catalog_url: String,
}

/// The address of a daemon running on this machine at its usual port.
pub const LOCAL_DAEMON_URL: &'static str = "http://localhost:11434";

/// The public page that lists the models one can install.
pub const CATALOG_URL: &'static str = "https://ollama.com/library";

impl BridgeConfig {
    /// The daemon on this machine and the public catalog page.
    pub fn local() -> (r: BridgeConfig)
        ensures
            r.daemon_base_url@ == LOCAL_DAEMON_URL@,
            r.catalog_url@ == CATALOG_URL@,
    {
        BridgeConfig {
            daemon_base_url: String::from_str(LOCAL_DAEMON_URL),
            catalog_url: String::from_str(CATALOG_URL),
        }
    }
}

#[derive(Clone, Copy, PartialEq, Eq, Structural, Debug)]
pub enum HttpMethod {
    Get,
    Post,
    Delete,
}

/// One HTTP request for the external client.
pub struct HttpRequest {
    pub method: HttpMethod,
    pub url: String,
    pub body: Option<String>,
}

pub struct HttpRequestView {
    pub method: HttpMethod,
    pub url: Seq<char>,
    pub body: Option<Seq<char>>,
}

pub open spec fn opt_text(o: Option<String>) -> Option<Seq<char>> {
    match o {
        Some(s) => Some(s@),
        None => None,
    }
}

impl View for HttpRequest {
    type V = HttpRequestView;

    open spec fn view(&self) -> HttpRequestView {
        HttpRequestView { method: self.method, url: self.url@, body: opt_text(self.body) }
    }
}

/// The endpoint path of each daemon operation.
pub const TAGS_PATH: &'static str = "/api/tags";
pub const GENERATE_PATH: &'static str = "/api/generate";
pub const PULL_PATH: &'static str = "/api/pull";
pub const DELETE_PATH: &'static str = "/api/delete";

/// `{ "model": "<model>", "prompt": "<prompt>" }`, the values put in as they are.
pub open spec fn generate_body_text(model: Seq<char>, prompt: Seq<char>) -> Seq<char> {
    "{ \"model\": \""@ + model + "\", \"prompt\": \""@ + prompt + "\" }"@
}

/// `{ "name": "<name>" }`, the value put in as it is.
pub open spec fn name_body_text(name: Seq<char>) -> Seq<char> {
    "{ \"name\": \""@ + name + "\" }"@
}

/// The body of a generation request. Quotes, backslashes and control
/// characters in the values are not escaped.
pub fn generate_body(model: &str, prompt: &str) -> (r: String)
    ensures
        r@ == generate_body_text(model@, prompt@),
{
    let mut r = String::from_str("{ \"model\": \"");
    r.append(model);
    r.append("\", \"prompt\": \"");
    r.append(prompt);
    r.append("\" }");
    r
}

/// The body of a pull or delete request. The name is not escaped.
pub fn name_body(name: &str) -> (r: String)
    ensures
        r@ == name_body_text(name@),
{
    let mut r = String::from_str("{ \"name\": \"");
    r.append(name);
    r.append("\" }");
    r
}

fn endpoint(config: &BridgeConfig, path: &str) -> (r: String)
    ensures
        r@ == config.daemon_base_url@ + path@,
{
    let mut r = config.daemon_base_url.clone();
    r.append(path);
    r
}

pub open spec fn list_request_view(config: BridgeConfig) -> HttpRequestView {
    HttpRequestView {
        method: HttpMethod::Get,
        url: config.daemon_base_url@ + TAGS_PATH@,
        body: None,
    }
}

/// The request that lists the installed models.
pub fn list_request(config: &BridgeConfig) -> (r: HttpRequest)
    ensures
        r@ == list_request_view(*config),
{
    HttpRequest { method: HttpMethod::Get, url: endpoint(config, TAGS_PATH), body: None }
}

/// The request that generates text from a prompt.
pub fn generate_request(config: &BridgeConfig, model: &str, prompt: &str) -> (r: HttpRequest)
    ensures
        r@ == (HttpRequestView {
            method: HttpMethod::Post,
            url: config.daemon_base_url@ + GENERATE_PATH@,
            body: Some(generate_body_text(model@, prompt@)),
        }),
{
    HttpRequest {
        method: HttpMethod::Post,
        url: endpoint(config, GENERATE_PATH),
        body: Some(generate_body(model, prompt)),
    }
}

/// The request that installs a model.
pub fn pull_request(config: &BridgeConfig, name: &str) -> (r: HttpRequest)
    ensures
        r@ == (HttpRequestView {
            method: HttpMethod::Post,
            url: config.daemon_base_url@ + PULL_PATH@,
            body: Some(name_body_text(name@)),
        }),
{
    HttpRequest {
        method: HttpMethod::Post,
        url: endpoint(config, PULL_PATH),
        body: Some(name_body(name)),
    }
}

/// The request that removes an installed model.
pub fn delete_request(config: &BridgeConfig, name: &str) -> (r: HttpRequest)
    ensures
        r@ == (HttpRequestView {
            method: HttpMethod::Delete,
            url: config.daemon_base_url@ + DELETE_PATH@,
            body: Some(name_body_text(name@)),
        }),
{
    HttpRequest {
        method: HttpMethod::Delete,
        url: endpoint(config, DELETE_PATH),
        body: Some(name_body(name)),
    }
}

pub open spec fn method_name(m: HttpMethod) -> Seq<char> {
    match m {
        HttpMethod::Get => "GET"@,
        HttpMethod::Post => "POST"@,
        HttpMethod::Delete => "DELETE"@,
    }
}

/// The name of a method as the client takes it.
pub fn method_text(m: HttpMethod) -> (r: String)
    ensures
        r@ == method_name(m),
{
    match m {
        HttpMethod::Get => String::from_str("GET"),
        HttpMethod::Post => String::from_str("POST"),
        HttpMethod::Delete => String::from_str("DELETE"),
    }
}

/// The client's arguments: a plain GET is just the URL; otherwise the method
/// is named with `-X`, and a body follows `-d`.
pub open spec fn curl_args_view(req: HttpRequestView) -> Seq<Seq<char>> {
    let head = if req.method == HttpMethod::Get && req.body is None {
        seq![req.url]
    } else {
        seq!["-X"@, method_name(req.method), req.url]
    };
    match req.body {
        Some(b) => head + seq!["-d"@, b],
        None => head,
    }
}

/// The argument list that makes the external client send `req`.
pub fn curl_args(req: &HttpRequest) -> (r: Vec<String>)
    ensures
        strings_view(r@) == curl_args_view(req@),
{
    let mut r: Vec<String> = Vec::new();
    let plain = match (&req.method, &req.body) {
        (HttpMethod::Get, None) => true,
        _ => false,
    };
    if !plain {
        r.push(String::from_str("-X"));
        r.push(method_text(req.method));
    }
    r.push(req.url.clone());
    match &req.body {
        Some(b) => {
            r.push(String::from_str("-d"));
            r.push(b.clone());
        },
        None => {},
    }
    proof {
        assert(strings_view(r@) =~= curl_args_view(req@));
    }
    r
}

} // verus!
