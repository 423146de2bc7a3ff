use crate::text::{decimal_text, push_decimal};
use vstd::prelude::*;

verus! {

/// How a decoded JSON document can differ from what was asked for.
#[derive(Clone, Copy, Debug, PartialEq, Eq, Structural)]
pub enum FormatError {
    /// A page of comments is not a JSON array.
    ExpectedArray,
    /// A single comment is not a JSON object.
    ExpectedObject,
    /// A comment has no string member `html_url`.
    MissingHtmlUrl,
}

/// What is wrong with the text of a pull-request URL.
#[derive(Clone, Copy, Debug, PartialEq, Eq, Structural)]
pub enum UrlError {
    /// The text is not an absolute URL.
    Url,
    /// The path is not `{owner}/{name}/pull/{number}`, or the URL names no host.
    Path,
    /// The last path segment is not a decimal number that fits 64 bits.
    PrNumber,
    /// The fragment does not start with `discussion_r`.
    Fragment,
    /// What follows `discussion_r` is not a decimal number that fits 64 bits.
    CommentId,
}

/// Which input failed validation.
#[derive(Clone, Copy, Debug, PartialEq, Eq, Structural)]
pub enum ValidationError {
    /// A repository identifier that is not `owner/name`.
    Repo,
    /// A hostname from which no host can be read.
    Hostname,
}

/// Everything that ends an invocation without a result.
#[derive(Debug, PartialEq, Eq)]
pub enum ClientError {
    /// No token was found for `hostname`.
    Auth { hostname: String },
    /// The server could not be reached.
    Network { detail: String },
    /// The server answered with a status outside 200..=299.
    Api { status: u16, body: String },
    /// The body of a successful answer is not JSON.
    Decode,
    /// The JSON is well formed but has the wrong shape.
    Format(FormatError),
    /// `text` (a URL, or the fragment of one) could not be parsed.
    Parse { fault: UrlError, text: String },
    /// `text` is not a valid input.
    Validation { rule: ValidationError, text: String },
}

/// The mathematical value of an [`ClientError`].
pub enum ClientErrorView {
    Auth { hostname: Seq<char> },
    Network { detail: Seq<char> },
    Api { status: u16, body: Seq<char> },
    Decode,
    Format(FormatError),
    Parse { fault: UrlError, text: Seq<char> },
    Validation { rule: ValidationError, text: Seq<char> },
}

impl View for ClientError {
    type V = ClientErrorView;

    open spec fn view(&self) -> ClientErrorView {
        match *self {
            ClientError::Auth { hostname } => ClientErrorView::Auth { hostname: hostname@ },
            ClientError::Network { detail } => ClientErrorView::Network { detail: detail@ },
            ClientError::Api { status, body } => ClientErrorView::Api { status, body: body@ },
            ClientError::Decode => ClientErrorView::Decode,
            ClientError::Format(e) => ClientErrorView::Format(e),
            ClientError::Parse { fault, text } => ClientErrorView::Parse { fault, text: text@ },
            ClientError::Validation { rule, text } => ClientErrorView::Validation { rule, text: text@ },
        }
    }
}

/// The mathematical value of what a function of this library returns.
pub open spec fn result_view<T: View>(r: Result<T, ClientError>) -> Result<T::V, ClientErrorView> {
    match r {
        Ok(v) => Ok(v@),
        Err(e) => Err(e@),
    }
}

/// The one-line message that describes `e` to a person.
pub open spec fn message_of(e: ClientErrorView) -> Seq<char> {
    match e {
        ClientErrorView::Auth { hostname } => "token for "@ + hostname + " not found."@,
        ClientErrorView::Network { detail } => "Failed to reach GitHub API: "@ + detail,
        ClientErrorView::Api { status, body } => "GitHub API error: "@ + decimal_text(status as nat)
            + " "@ + body,
        ClientErrorView::Decode => "Failed to parse JSON response"@,
        ClientErrorView::Format(FormatError::MissingHtmlUrl) => "Missing html_url in comment"@,
        ClientErrorView::Format(_) => "Unexpected GitHub API response format"@,
        ClientErrorView::Parse { fault, text } => match fault {
            UrlError::Url => "Failed to parse URL: "@ + text,
            UrlError::Path => "Invalid PR URL format: "@ + text,
            UrlError::PrNumber => "Failed to parse PR number: "@ + text,
            UrlError::Fragment => "Invalid comment ID fragment: #"@ + text,
            UrlError::CommentId => "Failed to parse comment ID: #"@ + text,
        },
        ClientErrorView::Validation { rule, text } => match rule {
            ValidationError::Repo => "Specify --repo owner/repo (e.g. --repo owner/repo)"@,
            ValidationError::Hostname => "Invalid --hostname: "@ + text,
        },
    }
}

impl ClientError {
    /// The one-line message for this error.
    pub fn message(&self) -> (out: String)
        ensures
            out@ == message_of(self@),
    {
        match self {
            ClientError::Auth { hostname } => {
                let mut out = String::from_str("token for ");
                out.append(hostname.as_str());
                out.append(" not found.");
                out
            },
            ClientError::Network { detail } => {
                let mut out = String::from_str("Failed to reach GitHub API: ");
                out.append(detail.as_str());
                out
            },
            ClientError::Api { status, body } => {
                let mut out = String::from_str("GitHub API error: ");
                push_decimal(&mut out, *status as u64);
                out.append(" ");
                out.append(body.as_str());
                out
            },
            ClientError::Decode => String::from_str("Failed to parse JSON response"),
            ClientError::Format(FormatError::MissingHtmlUrl) => String::from_str(
                "Missing html_url in comment",
            ),
            ClientError::Format(_) => String::from_str("Unexpected GitHub API response format"),
            ClientError::Parse { fault, text } => {
                let mut out = match fault {
                    UrlError::Url => String::from_str("Failed to parse URL: "),
                    UrlError::Path => String::from_str("Invalid PR URL format: "),
                    UrlError::PrNumber => String::from_str("Failed to parse PR number: "),
                    UrlError::Fragment => String::from_str("Invalid comment ID fragment: #"),
                    UrlError::CommentId => String::from_str("Failed to parse comment ID: #"),
                };
                out.append(text.as_str());
                out
            },
            ClientError::Validation { rule, text } => match rule {
                ValidationError::Repo => String::from_str(
                    "Specify --repo owner/repo (e.g. --repo owner/repo)",
                ),
                ValidationError::Hostname => {
                    let mut out = String::from_str("Invalid --hostname: ");
                    out.append(text.as_str());
                    out
                },
            },
        }
    }
}

} // verus!
