use vstd::prelude::*;

verus! {

/// The HTTP verb of a request.
#[derive(PartialEq, Eq, Structural, Clone, Copy, Debug)]
pub enum Method {
    Get,
    Post,
    Put,
    Delete,
}

/// A request for the HTTP client to send.
///
/// `authorization` is the bearer token of a service call; such calls also carry the
/// JSON content type. `json_body` is sent as the body, `form` as an url-encoded form and
/// `query` as the query string.
#[derive(Debug)]
pub struct HttpRequest {
    pub method: Method,
    pub url: String,
    pub authorization: Option<String>,
    pub json_body: Option<String>,
    pub form: Vec<(String, String)>,
    pub query: Vec<(String, String)>,
}

/// What came back for a request: the status code, the `location` header when there is
/// one, and the body text or the reason it could not be read.
#[derive(Debug)]
pub struct HttpReply {
    pub status: u16,
    pub location: Option<String>,
    pub body: Result<String, String>,
}

/// A list of string pairs as character sequences.
pub open spec fn pairs_view(v: Seq<(String, String)>) -> Seq<(Seq<char>, Seq<char>)> {
    v.map_values(|p: (String, String)| (p.0@, p.1@))
}

/// An optional string as an optional character sequence.
pub open spec fn opt_view(o: Option<String>) -> Option<Seq<char>> {
    match o {
        Some(s) => Some(s@),
        None => None,
    }
}

/// What an [`HttpRequest`] holds, as character sequences.
pub struct RequestSpec {
    pub method: Method,
    pub url: Seq<char>,
    pub authorization: Option<Seq<char>>,
    pub json_body: Option<Seq<char>>,
    pub form: Seq<(Seq<char>, Seq<char>)>,
    pub query: Seq<(Seq<char>, Seq<char>)>,
}

impl View for HttpRequest {
    type V = RequestSpec;

    open spec fn view(&self) -> RequestSpec {
        RequestSpec {
            method: self.method,
            url: self.url@,
            authorization: opt_view(self.authorization),
            json_body: opt_view(self.json_body),
            form: pairs_view(self.form@),
            query: pairs_view(self.query@),
        }
    }
}

/// What an [`HttpReply`] holds, its texts as character sequences.
pub struct ReplySpec {
    pub status: u16,
    pub location: Option<Seq<char>>,
    pub body: Result<Seq<char>, Seq<char>>,
}

impl View for HttpReply {
    type V = ReplySpec;

    open spec fn view(&self) -> ReplySpec {
        ReplySpec {
            status: self.status,
            location: opt_view(self.location),
            body: match self.body {
                Ok(b) => Ok(b@),
                Err(e) => Err(e@),
            },
        }
    }
}

/// The outcome of sending a request: the reply, or why there is none.
pub open spec fn sent_view(r: Result<HttpReply, String>) -> Result<ReplySpec, Seq<char>> {
    match r {
        Ok(rep) => Ok(rep@),
        Err(e) => Err(e@),
    }
}

/// A status code in the 2xx range.
pub open spec fn is_success_spec(status: u16) -> bool {
    200 <= status < 300
}

/// The status code is in the 2xx range.
pub fn is_success(status: u16) -> (r: bool)
    ensures
        r == is_success_spec(status),
{
    200 <= status && status < 300
}

/// Status code of a redirection to another location.
pub const FOUND: u16 = 302;

/// Status code of a missing resource.
pub const NOT_FOUND: u16 = 404;

/// A request to the service on behalf of the holder of `token`.
pub open spec fn service_request_spec(method: Method, url: Seq<char>, token: Seq<char>, body: Option<Seq<char>>) -> RequestSpec {
    RequestSpec {
        method: method,
        url: url,
        authorization: Some(token),
        json_body: body,
        form: Seq::empty(),
        query: Seq::empty(),
    }
}

/// Builds a request to the service on behalf of the holder of `token`.
pub fn service_request(method: Method, url: String, token: &str, body: Option<String>) -> (r: HttpRequest)
    ensures
        r@ == service_request_spec(method, url@, token@, opt_view(body)),
{
    let form: Vec<(String, String)> = Vec::new();
    let query: Vec<(String, String)> = Vec::new();
    let r = HttpRequest {
        method: method,
        url: url,
        authorization: Some(String::from_str(token)),
        json_body: body,
        form: form,
        query: query,
    };
    assert(pairs_view(r.form@) =~= Seq::empty());
    assert(pairs_view(r.query@) =~= Seq::empty());
    r
}

} // verus!
