use crate::credentials::Credential;
use crate::error::{result_view, ClientError, ClientErrorView, FormatError};
use crate::host::is_hosted;
use crate::text::{
    decimal_text, lowercase, push_decimal, same_text, text_from_utf8_lossy, utf8_lossy,
};
use serde_json::Value;
use vstd::prelude::*;

verus! {

/// `serde_json::Error`, the error of the JSON decoder. It is carried through
/// and never read.
#[verifier::external_type_specification]
#[verifier::external_body]
pub struct ExJsonError(serde_json::Error);

/// The base of the hosted API.
pub const API_BASE: &'static str = "https://api.github.com";

/// How many comments are asked for in one page.
pub const PER_PAGE: usize = 100;

/// An inline comment, as far as it is read: the two string members of the
/// JSON object. A member that is absent, or no string, is `None`.
#[derive(Debug, PartialEq, Eq)]
pub struct Comment {
    pub html_url: Option<String>,
    pub body: Option<String>,
}

/// The mathematical value of a [`Comment`].
pub struct CommentView {
    pub html_url: Option<Seq<char>>,
    pub body: Option<Seq<char>>,
}

impl View for Comment {
    type V = CommentView;

    open spec fn view(&self) -> CommentView {
        CommentView { html_url: self.html_url.deep_view(), body: self.body.deep_view() }
    }
}

/// The values of the comments `list`, in order.
pub open spec fn comment_views(list: Seq<Comment>) -> Seq<CommentView> {
    list.map_values(|c: Comment| c@)
}

/// A decoded JSON document, as far as it is read.
#[derive(Debug, PartialEq, Eq)]
pub enum Payload {
    /// An array; each element is read as a comment.
    Array(Vec<Comment>),
    /// An object, read as a comment.
    Object(Comment),
    /// Anything else.
    Other,
}

/// The mathematical value of a [`Payload`].
pub enum PayloadView {
    Array(Seq<CommentView>),
    Object(CommentView),
    Other,
}

impl View for Payload {
    type V = PayloadView;

    open spec fn view(&self) -> PayloadView {
        match *self {
            Payload::Array(list) => PayloadView::Array(comment_views(list@)),
            Payload::Object(comment) => PayloadView::Object(comment@),
            Payload::Other => PayloadView::Other,
        }
    }
}

/// What `serde_json::from_slice` decodes from `bytes`, read as a payload
/// whose comments hold the string members named `url_key` and `body_key`;
/// `None` where `bytes` are no JSON document.
pub uninterp spec fn json_payload(bytes: Seq<u8>, url_key: Seq<char>, body_key: Seq<char>) -> Option<
    PayloadView,
>;

/// Decodes `body` with `serde_json::from_slice` into a `serde_json::Value`
/// and keeps of it what a [`Payload`] holds: whether it is an array, an
/// object or something else, and of each comment the members `url_key` and
/// `body_key`, read with `Value::get` and `Value::as_str`. It fails exactly
/// when the decoder does. Nothing is claimed about how JSON is read: the
/// payload is the named result above.
#[verifier::external_body]
pub(crate) fn decode_json(body: &[u8], url_key: &str, body_key: &str) -> (r: Result<
    Payload,
    serde_json::Error,
>)
    ensures
        r is Ok <==> json_payload(body@, url_key@, body_key@) is Some,
        r is Ok ==> Some(r->Ok_0@) == json_payload(body@, url_key@, body_key@),
{
    let text = |v: &Value, key: &str| v.get(key).and_then(Value::as_str).map(str::to_owned);
    let comment = |v: &Value| Comment { html_url: text(v, url_key), body: text(v, body_key) };
    Ok(
        match serde_json::from_slice::<Value>(body)? {
            Value::Array(items) => Payload::Array(items.iter().map(comment).collect()),
            Value::Object(map) => Payload::Object(comment(&Value::Object(map))),
            Value::Null => Payload::Other,
            Value::Bool(_) => Payload::Other,
            Value::Number(_) => Payload::Other,
            Value::String(_) => Payload::Other,
        },
    )
}

/// The base of the API of `hostname`: the hosted base for the hosted
/// domain, written exactly so, and the self-hosted pattern for every other
/// host.
pub open spec fn api_base_of(hostname: Seq<char>) -> Seq<char> {
    if hostname == "github.com"@ {
        "https://api.github.com"@
    } else {
        "https://"@ + hostname + "/api/v3"@
    }
}

/// The address of one inline comment.
pub open spec fn comment_url(api_base: Seq<char>, repo: Seq<char>, comment_id: u64) -> Seq<char> {
    api_base + "/repos/"@ + repo + "/pulls/comments/"@ + decimal_text(comment_id as nat)
}

/// The address of one page of the inline comments of a pull request.
pub open spec fn page_url(api_base: Seq<char>, repo: Seq<char>, pr_number: u64, page: nat) -> Seq<
    char,
> {
    api_base + "/repos/"@ + repo + "/pulls/"@ + decimal_text(pr_number as nat)
        + "/comments?per_page="@ + decimal_text(PER_PAGE as nat) + "&page="@ + decimal_text(page)
}

/// The base of the API of `hostname`. The hostname is taken as it is: the
/// caller normalizes it first.
pub fn api_base_for(hostname: &str) -> (r: String)
    ensures
        r@ == api_base_of(hostname@),
{
    if same_text(hostname, "github.com") {
        API_BASE.to_owned()
    } else {
        let mut base = "https://".to_owned();
        base.append(hostname);
        base.append("/api/v3");
        base
    }
}

/// Once the hostname is in small letters, the hosted base is chosen exactly
/// for the hosted domain, in whatever mix of cases it was written.
pub proof fn lemma_hosted_base_ignores_case(hostname: Seq<char>)
    ensures
        is_hosted(hostname) <==> api_base_of(lowercase(hostname)) == "https://api.github.com"@,
{
    let small = lowercase(hostname);
    if small != "github.com"@ {
        reveal_strlit("https://api.github.com");
        reveal_strlit("https://");
        reveal_strlit("/api/v3");
        let other = "https://"@ + small + "/api/v3"@;
        assert(other.last() == '3');
        assert("https://api.github.com"@.last() == 'm');
    }
}

/// A session with the API of one host: the token and the API base.
#[derive(Debug, PartialEq, Eq)]
pub struct GitHubApi {
    token: Credential,
    api_base: String,
}

/// The mathematical value of a [`GitHubApi`].
pub struct GitHubApiView {
    pub token: Seq<char>,
    pub api_base: Seq<char>,
}

impl View for GitHubApi {
    type V = GitHubApiView;

    closed spec fn view(&self) -> GitHubApiView {
        GitHubApiView { token: self.token@, api_base: self.api_base@ }
    }
}

/// A request to send: a GET of `url` with `headers`.
#[derive(Debug, PartialEq, Eq)]
pub struct Request {
    pub url: String,
    /// Name and value of each header, in the order in which they are set.
    pub headers: Vec<(String, String)>,
}

/// The mathematical value of a [`Request`].
pub struct RequestView {
    pub url: Seq<char>,
    pub headers: Seq<(Seq<char>, Seq<char>)>,
}

impl View for Request {
    type V = RequestView;

    open spec fn view(&self) -> RequestView {
        RequestView { url: self.url@, headers: self.headers.deep_view() }
    }
}

/// What came of sending a request.
#[derive(Debug, PartialEq, Eq)]
pub enum Reply {
    /// The server could not be reached; `detail` says why.
    Unreachable { detail: String },
    /// The server answered with `status` and the bytes `body`.
    Response { status: u16, body: Vec<u8> },
}

/// The mathematical value of a [`Reply`].
pub enum ReplyView {
    Unreachable { detail: Seq<char> },
    Response { status: u16, body: Seq<u8> },
}

impl View for Reply {
    type V = ReplyView;

    open spec fn view(&self) -> ReplyView {
        match *self {
            Reply::Unreachable { detail } => ReplyView::Unreachable { detail: detail@ },
            Reply::Response { status, body } => ReplyView::Response { status, body: body@ },
        }
    }
}

/// What a fetch returns: one comment, or all comments of a pull request in
/// the order in which the pages gave them.
#[derive(Debug, PartialEq, Eq)]
pub enum Fetched {
    Comment(Comment),
    Comments(Vec<Comment>),
}

/// The mathematical value of [`Fetched`].
pub enum FetchedView {
    Comment(CommentView),
    Comments(Seq<CommentView>),
}

impl View for Fetched {
    type V = FetchedView;

    open spec fn view(&self) -> FetchedView {
        match *self {
            Fetched::Comment(comment) => FetchedView::Comment(comment@),
            Fetched::Comments(list) => FetchedView::Comments(comment_views(list@)),
        }
    }
}

/// A fetch that waits for the reply to its next request.
#[derive(Debug, PartialEq, Eq)]
pub struct Fetch {
    api_base: String,
    repo: String,
    pr_number: u64,
    comment_id: Option<u64>,
    page: u64,
    collected: Vec<Comment>,
}

/// The mathematical value of a [`Fetch`].
pub enum FetchView {
    /// The one request for a single comment is due.
    Comment { api_base: Seq<char>, repo: Seq<char>, comment_id: u64 },
    /// The request for page `page` is due; the pages before it gave
    /// `collected`.
    Page {
        api_base: Seq<char>,
        repo: Seq<char>,
        pr_number: u64,
        page: nat,
        collected: Seq<CommentView>,
    },
}

impl View for Fetch {
    type V = FetchView;

    closed spec fn view(&self) -> FetchView {
        match self.comment_id {
            Some(comment_id) => FetchView::Comment {
                api_base: self.api_base@,
                repo: self.repo@,
                comment_id,
            },
            None => FetchView::Page {
                api_base: self.api_base@,
                repo: self.repo@,
                pr_number: self.pr_number,
                page: self.page as nat,
                collected: comment_views(self.collected@),
            },
        }
    }
}

/// How a fetch goes on after a reply.
#[derive(Debug, PartialEq, Eq)]
pub enum FetchStep {
    /// A further request is due.
    Continue(Fetch),
    /// The fetch is complete.
    Done(Fetched),
    /// The fetch failed; what was collected is dropped.
    Failed(ClientError),
}

/// The mathematical value of a [`FetchStep`].
pub enum FetchStepView {
    Continue(FetchView),
    Done(FetchedView),
    Failed(ClientErrorView),
}

impl View for FetchStep {
    type V = FetchStepView;

    open spec fn view(&self) -> FetchStepView {
        match *self {
            FetchStep::Continue(fetch) => FetchStepView::Continue(fetch@),
            FetchStep::Done(fetched) => FetchStepView::Done(fetched@),
            FetchStep::Failed(e) => FetchStepView::Failed(e@),
        }
    }
}

/// The request that gets `url` in the session `api`: bearer authorization
/// with the session's token, the JSON media type of the API, the pinned
/// version of the API, and the user agent of this client.
pub open spec fn request_for(api: GitHubApiView, url: Seq<char>) -> RequestView {
    RequestView {
        url,
        headers: seq![
            ("Authorization"@, "Bearer "@ + api.token),
            ("Accept"@, "application/vnd.github+json"@),
            ("X-GitHub-Api-Version"@, "2022-11-28"@),
            ("User-Agent"@, "gh-pr-get-comments"@),
        ],
    }
}

/// The fetch that a target starts: of the one comment where the target
/// names one, else of all comments of the pull request, from page 1.
pub open spec fn fetch_start(
    api_base: Seq<char>,
    repo: Seq<char>,
    pr_number: u64,
    comment_id: Option<u64>,
) -> FetchView {
    match comment_id {
        Some(comment_id) => FetchView::Comment { api_base, repo, comment_id },
        None => FetchView::Page { api_base, repo, pr_number, page: 1, collected: Seq::empty() },
    }
}

/// The address that the next request of `fetch` gets.
pub open spec fn fetch_url(fetch: FetchView) -> Seq<char> {
    match fetch {
        FetchView::Comment { api_base, repo, comment_id } => comment_url(
            api_base,
            repo,
            comment_id,
        ),
        FetchView::Page { api_base, repo, pr_number, page, collected } => page_url(
            api_base,
            repo,
            pr_number,
            page,
        ),
    }
}

/// Whether `status` is a success status of HTTP.
pub open spec fn is_success(status: u16) -> bool {
    200 <= status < 300
}

/// The payload of a reply: a reply that did not come is a network error, a
/// status that is no success is an API error with the status and the text
/// of the body, and a body that is no JSON is a decode error.
pub open spec fn reply_payload(reply: ReplyView) -> Result<PayloadView, ClientErrorView> {
    match reply {
        ReplyView::Unreachable { detail } => Err(ClientErrorView::Network { detail }),
        ReplyView::Response { status, body } => if !is_success(status) {
            Err(ClientErrorView::Api { status, body: utf8_lossy(body) })
        } else {
            match json_payload(body, "html_url"@, "body"@) {
                Some(payload) => Ok(payload),
                None => Err(ClientErrorView::Decode),
            }
        },
    }
}

/// How `fetch` goes on when its request was answered with `payload`. An
/// error ends it. A single comment must be a JSON object. A page must be a
/// JSON array; its comments are added behind those collected so far, a full
/// page asks for the next one, and a page that is not full ends the fetch.
pub open spec fn fetch_step(
    fetch: FetchView,
    payload: Result<PayloadView, ClientErrorView>,
) -> FetchStepView {
    match payload {
        Err(e) => FetchStepView::Failed(e),
        Ok(payload) => match fetch {
            FetchView::Comment { .. } => match payload {
                PayloadView::Object(comment) => FetchStepView::Done(FetchedView::Comment(comment)),
                _ => FetchStepView::Failed(ClientErrorView::Format(FormatError::ExpectedObject)),
            },
            FetchView::Page { api_base, repo, pr_number, page, collected } => match payload {
                PayloadView::Array(batch) => if batch.len() < PER_PAGE {
                    FetchStepView::Done(FetchedView::Comments(collected + batch))
                } else {
                    FetchStepView::Continue(
                        FetchView::Page {
                            api_base,
                            repo,
                            pr_number,
                            page: page + 1,
                            collected: collected + batch,
                        },
                    )
                },
                _ => FetchStepView::Failed(ClientErrorView::Format(FormatError::ExpectedArray)),
            },
        },
    }
}

/// The page `page`, counted from 1, of a server that holds `all` and
/// serves [`PER_PAGE`] comments at a time.
pub open spec fn page_of(all: Seq<CommentView>, page: nat) -> Seq<CommentView> {
    let from = if PER_PAGE * (page - 1) <= all.len() {
        PER_PAGE * (page - 1)
    } else {
        all.len() as int
    };
    let to = if PER_PAGE * page <= all.len() {
        PER_PAGE * page
    } else {
        all.len() as int
    };
    if 0 <= from <= to {
        all.subrange(from, to)
    } else {
        Seq::empty()
    }
}

/// A fetch of all comments that is run, from page `page` on and with
/// `collected` in hand, against a server that holds `all`: the sizes of the
/// pages that are requested, in order, and how the fetch ends.
pub open spec fn paged_fetch(
    all: Seq<CommentView>,
    api_base: Seq<char>,
    repo: Seq<char>,
    pr_number: u64,
    page: nat,
    collected: Seq<CommentView>,
) -> (Seq<nat>, FetchStepView)
    decreases all.len() + PER_PAGE - PER_PAGE * page,
{
    let batch = page_of(all, page);
    let fetch = FetchView::Page { api_base, repo, pr_number, page, collected };
    match fetch_step(fetch, Ok(PayloadView::Array(batch))) {
        FetchStepView::Continue(FetchView::Page { page: next, collected: grown, .. }) => if next
            == page + 1 && PER_PAGE * page <= all.len() {
            let (sizes, end) = paged_fetch(all, api_base, repo, pr_number, next, grown);
            (seq![batch.len()] + sizes, end)
        } else {
            // a full page is never the last one, and the next page follows it
            (seq![batch.len()], FetchStepView::Continue(fetch))
        },
        end => (seq![batch.len()], end),
    }
}

/// A paged fetch that holds the first comments of `all` and asks for the
/// page behind them ends with all of `all`, after one request for each full
/// page that is left and one more.
proof fn lemma_paged_fetch_from(
    all: Seq<CommentView>,
    api_base: Seq<char>,
    repo: Seq<char>,
    pr_number: u64,
    page: nat,
    collected: Seq<CommentView>,
)
    requires
        page >= 1,
        PER_PAGE * (page - 1) <= all.len(),
        collected == all.take(PER_PAGE * (page - 1)),
    ensures
        ({
            let (sizes, end) = paged_fetch(all, api_base, repo, pr_number, page, collected);
            &&& end == FetchStepView::Done(FetchedView::Comments(all))
            &&& sizes.len() == all.len() / (PER_PAGE as nat) - (page - 1) + 1
            &&& forall|i: int| 0 <= i < sizes.len() - 1 ==> sizes[i] == PER_PAGE
            &&& sizes.last() == all.len() % (PER_PAGE as nat)
        }),
    decreases all.len() + PER_PAGE - PER_PAGE * page,
{
    let batch = page_of(all, page);
    if PER_PAGE * page <= all.len() {
        assert(batch.len() == PER_PAGE);
        assert(collected + batch =~= all.take(PER_PAGE * page));
        lemma_paged_fetch_from(
            all,
            api_base,
            repo,
            pr_number,
            page + 1,
            collected + batch,
        );
        let (rest, end) = paged_fetch(
            all,
            api_base,
            repo,
            pr_number,
            page + 1,
            collected + batch,
        );
        let sizes = seq![batch.len()] + rest;
        assert(paged_fetch(all, api_base, repo, pr_number, page, collected) == (sizes, end));
        assert forall|i: int| 0 <= i < sizes.len() - 1 implies sizes[i] == PER_PAGE by {
            if i > 0 {
                assert(sizes[i] == rest[i - 1]);
            }
        }
        assert(sizes.last() == rest.last());
    } else {
        assert(batch.len() == all.len() - PER_PAGE * (page - 1));
        assert(collected + batch =~= all);
    }
}

/// Fetching all comments from a server that holds `all` and serves full
/// pages as long as it can returns exactly `all`, in order. It takes one
/// request for each full page and one more for the page that is not full,
/// which is empty where the number of comments is a multiple of the page
/// size.
pub proof fn lemma_paged_fetch_collects_all(
    all: Seq<CommentView>,
    api_base: Seq<char>,
    repo: Seq<char>,
    pr_number: u64,
)
    ensures
        ({
            let (sizes, end) = paged_fetch(all, api_base, repo, pr_number, 1, Seq::empty());
            &&& end == FetchStepView::Done(FetchedView::Comments(all))
            &&& sizes.len() == all.len() / (PER_PAGE as nat) + 1
            &&& forall|i: int| 0 <= i < sizes.len() - 1 ==> sizes[i] == PER_PAGE
            &&& sizes.last() == all.len() % (PER_PAGE as nat)
        }),
{
    assert(all.take(0) =~= Seq::empty());
    lemma_paged_fetch_from(all, api_base, repo, pr_number, 1, Seq::empty());
}

/// Reads the payload of a reply.
pub fn read_reply(reply: &Reply) -> (r: Result<Payload, ClientError>)
    ensures
        result_view(r) == reply_payload(reply@),
{
    match reply {
        Reply::Unreachable { detail } => Err(ClientError::Network { detail: detail.clone() }),
        Reply::Response { status, body } => {
            if !(200 <= *status && *status < 300) {
                Err(
                    ClientError::Api {
                        status: *status,
                        body: text_from_utf8_lossy(body.as_slice()),
                    },
                )
            } else {
                match decode_json(body.as_slice(), "html_url", "body") {
                    Ok(payload) => Ok(payload),
                    Err(_) => Err(ClientError::Decode),
                }
            }
        },
    }
}

impl Fetch {
    /// Every page before the one that is due was full.
    #[verifier::type_invariant]
    spec fn pages_were_full(self) -> bool {
        self.page >= 1 && PER_PAGE * (self.page - 1) <= self.collected.len()
    }

    /// Goes on with the payload that answered the request of this fetch.
    pub fn accept(self, payload: Result<Payload, ClientError>) -> (r: FetchStep)
        ensures
            r@ == fetch_step(self@, result_view(payload)),
    {
        proof {
            use_type_invariant(&self);
        }
        let payload = match payload {
            Ok(payload) => payload,
            Err(e) => {
                return FetchStep::Failed(e);
            },
        };
        let Fetch { api_base, repo, pr_number, comment_id, page, collected } = self;
        if comment_id.is_some() {
            return match payload {
                Payload::Object(comment) => FetchStep::Done(Fetched::Comment(comment)),
                _ => FetchStep::Failed(ClientError::Format(FormatError::ExpectedObject)),
            };
        }
        let mut batch = match payload {
            Payload::Array(batch) => batch,
            _ => {
                return FetchStep::Failed(ClientError::Format(FormatError::ExpectedArray));
            },
        };
        let ghost before = collected@;
        let ghost added = batch@;
        let full = batch.len() >= PER_PAGE;
        let mut collected = collected;
        collected.append(&mut batch);
        assert(comment_views(collected@) =~= comment_views(before) + comment_views(added));
        if full {
            FetchStep::Continue(
                Fetch { api_base, repo, pr_number, comment_id, page: page + 1, collected },
            )
        } else {
            FetchStep::Done(Fetched::Comments(collected))
        }
    }

    /// Goes on with the reply to the request of this fetch.
    pub fn advance(self, reply: &Reply) -> (r: FetchStep)
        ensures
            r@ == fetch_step(self@, reply_payload(reply@)),
    {
        let payload = read_reply(reply);
        self.accept(payload)
    }
}

impl GitHubApi {
    /// The session with the API of `hostname`, which has been normalized,
    /// under `credential`.
    pub fn new(hostname: &str, credential: Credential) -> (api: GitHubApi)
        ensures
            api@ == (GitHubApiView { token: credential@, api_base: api_base_of(hostname@) }),
    {
        GitHubApi { token: credential, api_base: api_base_for(hostname) }
    }

    /// The base of the API of this session.
    pub fn api_base(&self) -> (r: &str)
        ensures
            r@ == self@.api_base,
    {
        self.api_base.as_str()
    }

    /// The request that gets `url` in this session.
    pub fn fetch_json(&self, url: &str) -> (r: Request)
        ensures
            r@ == request_for(self@, url@),
    {
        let mut bearer = "Bearer ".to_owned();
        bearer.append(self.token.token());
        let mut headers: Vec<(String, String)> = Vec::new();
        headers.push(("Authorization".to_owned(), bearer));
        headers.push(("Accept".to_owned(), "application/vnd.github+json".to_owned()));
        headers.push(("X-GitHub-Api-Version".to_owned(), "2022-11-28".to_owned()));
        headers.push(("User-Agent".to_owned(), "gh-pr-get-comments".to_owned()));
        let r = Request { url: url.to_owned(), headers };
        assert(r@.headers =~= request_for(self@, url@).headers);
        r
    }

    /// Starts the fetch of the single comment `comment_id` of `repo`.
    pub fn fetch_pr_comment(&self, repo: &str, comment_id: u64) -> (r: Fetch)
        ensures
            r@ == fetch_start(self@.api_base, repo@, 0, Some(comment_id)),
    {
        Fetch {
            api_base: self.api_base.clone(),
            repo: repo.to_owned(),
            pr_number: 0,
            comment_id: Some(comment_id),
            page: 1,
            collected: Vec::new(),
        }
    }

    /// Starts the fetch of all comments of the pull request `pr_number` of
    /// `repo`.
    pub fn fetch_all_pr_comments(&self, repo: &str, pr_number: u64) -> (r: Fetch)
        ensures
            r@ == fetch_start(self@.api_base, repo@, pr_number, None),
    {
        let collected: Vec<Comment> = Vec::new();
        assert(comment_views(collected@) =~= Seq::empty());
        Fetch {
            api_base: self.api_base.clone(),
            repo: repo.to_owned(),
            pr_number,
            comment_id: None,
            page: 1,
            collected,
        }
    }

    /// Starts the fetch of what the target names: the one comment where
    /// `comment_id` is given, else all comments of the pull request.
    pub fn fetch_pr_comments(&self, repo: &str, pr_number: u64, comment_id: Option<u64>) -> (r:
        Fetch)
        ensures
            r@ == fetch_start(self@.api_base, repo@, pr_number, comment_id),
    {
        match comment_id {
            Some(comment_id) => self.fetch_pr_comment(repo, comment_id),
            None => self.fetch_all_pr_comments(repo, pr_number),
        }
    }

    /// The request that `fetch` waits for.
    pub fn next_request(&self, fetch: &Fetch) -> (r: Request)
        ensures
            r@ == request_for(self@, fetch_url(fetch@)),
    {
        let mut url = fetch.api_base.clone();
        url.append("/repos/");
        url.append(fetch.repo.as_str());
        match fetch.comment_id {
            Some(comment_id) => {
                url.append("/pulls/comments/");
                push_decimal(&mut url, comment_id);
            },
            None => {
                url.append("/pulls/");
                push_decimal(&mut url, fetch.pr_number);
                url.append("/comments?per_page=");
                push_decimal(&mut url, PER_PAGE as u64);
                url.append("&page=");
                push_decimal(&mut url, fetch.page);
            },
        }
        self.fetch_json(url.as_str())
    }
}

} // verus!
