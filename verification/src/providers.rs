//! The provider abstraction: one request shape, a capability set that each
//! backend implements, and the shared orchestration that drives any backend
//! through it. The HTTP exchange itself happens outside; this module
//! prepares everything the exchange needs and interprets everything it
//! returns.

pub mod anthropic;
pub mod google;
pub mod ollama;
pub mod openai;
pub mod prompt;

use vstd::prelude::*;

use crate::error::Error;
use crate::git::GitOutput;
use crate::json::{json_of, json_parses, parse_json, value_rep, JsonModel};
use crate::providers::prompt::{opt_view, rendered_prompt, Prompt};

verus! {

/// One generation request: the two revisions to diff, the exclusion
/// patterns, the optional overrides for the prompt sections, and whether a
/// title is wanted instead of a description.
pub struct Request {
    pub base: String,
    pub head: String,
    pub exclude: Vec<String>,
    pub template: Option<String>,
    pub role: Option<String>,
    pub directive: Option<String>,
    pub is_title: bool,
}

impl Request {
    /// Builds a request from its parts.
    pub fn new(
        base: String,
        head: String,
        exclude: Vec<String>,
        template: Option<String>,
        role: Option<String>,
        directive: Option<String>,
        is_title: bool,
    ) -> (r: Request)
        ensures
            r.base == base,
            r.head == head,
            r.exclude == exclude,
            r.template == template,
            r.role == role,
            r.directive == directive,
            r.is_title == is_title,
    {
        Request { base, head, exclude, template, role, directive, is_title }
    }
}

/// The view of an optional owned override.
pub open spec fn opt_string_view(o: Option<String>) -> Option<Seq<char>> {
    match o {
        Some(s) => Some(s@),
        None => None,
    }
}

fn as_opt_str(o: &Option<String>) -> (r: Option<&str>)
    ensures
        opt_view(r) == opt_string_view(*o),
{
    match o {
        Some(s) => Some(s.as_str()),
        None => None,
    }
}

/// Builds the prompt for `request` from the diff tool's raw outcome,
/// propagating a failed or empty diff unchanged.
pub fn build_prompt(request: &Request, git: GitOutput) -> (r: Result<String, Error>)
    ensures
        !git.success ==> (r matches Err(e) && e matches Error::DiffFailed { detail } && detail@
            == git.stderr@),
        git.success && git.stdout@.len() == 0 ==> (r matches Err(e) && e matches Error::NoChanges {
            base: b,
            head: h,
        } && b@ == request.base@ && h@ == request.head@),
        git.success && git.stdout@.len() > 0 ==> (r matches Ok(p) && p@ == rendered_prompt(
            opt_string_view(request.role),
            opt_string_view(request.directive),
            opt_string_view(request.template),
            request.is_title,
            git.stdout@,
        )),
{
    Prompt::render(
        request.base.as_str(),
        request.head.as_str(),
        as_opt_str(&request.role),
        as_opt_str(&request.directive),
        as_opt_str(&request.template),
        request.is_title,
        git,
    )
}

/// The views of a header list.
pub open spec fn header_views(hs: Seq<(String, String)>) -> Seq<(Seq<char>, Seq<char>)> {
    hs.map_values(|h: (String, String)| (h.0@, h.1@))
}

/// The capability set each backend implements: construction from its
/// configuration, the endpoint URL, the request payload, the headers its
/// calls carry, and the reduction of a reply document to text. The shared
/// orchestration below drives any backend through exactly these five.
pub trait Provider: Sized {
    type Config;

    /// The provider that `from_config` makes of a configuration.
    spec fn made(config: Self::Config) -> Self;

    /// The endpoint URL.
    spec fn url_spec(&self) -> Seq<char>;

    /// The payload text carrying `prompt`.
    spec fn body_spec(&self, prompt: Seq<char>) -> Seq<char>;

    /// The headers, name-value pairs in order.
    spec fn headers_spec(&self) -> Seq<(Seq<char>, Seq<char>)>;

    /// The text a reply document reduces to; total, with the empty text
    /// standing for an absent or differently-shaped field.
    spec fn extract_spec(&self, doc: JsonModel) -> Seq<char>;

    /// Whether the configuration's fractional parameters are decimal number
    /// tokens; the payload builder requires it so the payload stays a
    /// well-formed document.
    spec fn wf(&self) -> bool;

    /// Wraps a configuration.
    fn from_config(config: Self::Config) -> (r: Self)
        ensures
            r == Self::made(config),
    ;

    /// Builds the endpoint URL.
    fn build_url(&self) -> (r: String)
        ensures
            r@ == self.url_spec(),
    ;

    /// Decides `wf`, so a caller can test it before building a payload.
    fn check_wf(&self) -> (r: bool)
        ensures
            r == self.wf(),
    ;

    /// Builds the request payload carrying `prompt`.
    fn build_request_body(&self, prompt: &str) -> (r: String)
        requires
            self.wf(),
        ensures
            r@ == self.body_spec(prompt@),
    ;

    /// The headers for the exchange, authentication included where the
    /// backend wants it in a header.
    fn headers(&self) -> (r: Vec<(String, String)>)
        ensures
            header_views(r@) == self.headers_spec(),
    ;

    /// Reduces a reply document to the generated text; an absent or
    /// differently-shaped field reduces to the empty text, never a failure.
    fn parse_response(&self, response: &serde_json::Value) -> (r: String)
        ensures
            r@ == self.extract_spec(value_rep(*response)),
    ;
}

/// Everything one backend exchange needs, ready to send.
pub struct HttpCall {
    pub url: String,
    pub headers: Vec<(String, String)>,
    pub body: String,
}

/// The first half of the shared orchestration, the same for every backend:
/// prompt from the diff, then URL, headers and payload. A failed or empty
/// diff propagates unchanged and nothing is prepared.
pub fn prepare_call<P: Provider>(p: &P, request: &Request, git: GitOutput) -> (r: Result<
    HttpCall,
    Error,
>)
    requires
        p.wf(),
    ensures
        !git.success ==> (r matches Err(e) && e matches Error::DiffFailed { detail } && detail@
            == git.stderr@),
        git.success && git.stdout@.len() == 0 ==> (r matches Err(e) && e matches Error::NoChanges {
            base: b,
            head: h,
        } && b@ == request.base@ && h@ == request.head@),
        git.success && git.stdout@.len() > 0 ==> (r matches Ok(c) && c.url@ == p.url_spec()
            && header_views(c.headers@) == p.headers_spec() && c.body@ == p.body_spec(
            rendered_prompt(
                opt_string_view(request.role),
                opt_string_view(request.directive),
                opt_string_view(request.template),
                request.is_title,
                git.stdout@,
            ),
        )),
{
    let prompt = match build_prompt(request, git) {
        Ok(t) => t,
        Err(e) => {
            return Err(e);
        },
    };
    let url = p.build_url();
    let headers = p.headers();
    let body = p.build_request_body(prompt.as_str());
    Ok(HttpCall { url, headers, body })
}

/// The second half of the shared orchestration: a non-success status fails
/// with the status and the reply body verbatim; a success reply is parsed
/// and reduced to the generated text, succeeding exactly when the body is a
/// well-formed document and failing as malformed otherwise.
pub fn handle_response<P: Provider>(p: &P, status: u16, body: &str) -> (r: Result<String, Error>)
    ensures
        !(200 <= status < 300) ==> (r matches Err(e) && e matches Error::ApiRequestFailed {
            status: st,
            body: b,
        } && st == status && b@ == body@),
        200 <= status < 300 ==> ((r is Ok) <==> json_parses(body@)),
        200 <= status < 300 ==> (match r {
            Ok(text) => text@ == p.extract_spec(json_of(body@)),
            Err(e) => e is MalformedResponse,
        }),
{
    if !(200 <= status && status < 300) {
        return Err(Error::ApiRequestFailed { status, body: body.to_owned() });
    }
    match parse_json(body) {
        Some(doc) => Ok(p.parse_response(&doc)),
        None => Err(Error::MalformedResponse),
    }
}

} // verus!
