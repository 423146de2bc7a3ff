use crate::error::{result_view, ClientError, ClientErrorView, UrlError};
use crate::text::{decimal_of, parse_decimal, same_text, strip_prefix, without_prefix};
use vstd::prelude::*;

verus! {

/// `url::ParseError`, the error of the URL parser. It is carried through
/// and never read.
#[verifier::external_type_specification]
#[verifier::external_body]
pub struct ExUrlParseError(url::ParseError);

/// Whether `url::Url::parse` accepts `raw` as an absolute URL.
pub uninterp spec fn url_is_absolute(raw: Seq<char>) -> bool;

/// What `url::Url::host_str` returns for the URL parsed from `raw`.
pub uninterp spec fn url_host(raw: Seq<char>) -> Option<Seq<char>>;

/// What `url::Url::path_segments` yields, collected in order, for the URL
/// parsed from `raw`.
pub uninterp spec fn url_path_segments(raw: Seq<char>) -> Option<Seq<Seq<char>>>;

/// What `url::Url::fragment` returns for the URL parsed from `raw`.
pub uninterp spec fn url_fragment(raw: Seq<char>) -> Option<Seq<char>>;

/// The components of an absolute URL that this library reads.
#[derive(Debug, PartialEq, Eq)]
pub struct UrlParts {
    /// The host, where the URL has one.
    pub host: Option<String>,
    /// The path split at `/`, unless the URL cannot be a base.
    pub path_segments: Option<Vec<String>>,
    /// What follows `#`, where the URL has a fragment.
    pub fragment: Option<String>,
}

/// The mathematical value of [`UrlParts`].
pub struct UrlPartsView {
    pub host: Option<Seq<char>>,
    pub path_segments: Option<Seq<Seq<char>>>,
    pub fragment: Option<Seq<char>>,
}

impl View for UrlParts {
    type V = UrlPartsView;

    open spec fn view(&self) -> UrlPartsView {
        UrlPartsView {
            host: self.host.deep_view(),
            path_segments: self.path_segments.deep_view(),
            fragment: self.fragment.deep_view(),
        }
    }
}

/// The components that the `url` crate reads from `raw`, where it is an
/// absolute URL.
pub open spec fn url_parts(raw: Seq<char>) -> Option<UrlPartsView> {
    if url_is_absolute(raw) {
        Some(
            UrlPartsView {
                host: url_host(raw),
                path_segments: url_path_segments(raw),
                fragment: url_fragment(raw),
            },
        )
    } else {
        None
    }
}

/// Parses `raw` with `url::Url::parse`. Where that succeeds, the result holds
/// what `Url::host_str`, `Url::path_segments` and `Url::fragment` return for
/// the parsed URL; where it fails, the result is the crate's error. Nothing
/// is claimed about how the URL syntax is read: the components are the named
/// results above.
#[verifier::external_body]
pub(crate) fn split_url(raw: &str) -> (r: Result<UrlParts, url::ParseError>)
    ensures
        r is Ok <==> url_is_absolute(raw@),
        r is Ok ==> r->Ok_0@ == (UrlPartsView {
            host: url_host(raw@),
            path_segments: url_path_segments(raw@),
            fragment: url_fragment(raw@),
        }),
{
    let url = url::Url::parse(raw)?;
    Ok(
        UrlParts {
            host: url.host_str().map(str::to_owned),
            path_segments: url.path_segments().map(|parts| parts.map(str::to_owned).collect()),
            fragment: url.fragment().map(str::to_owned),
        },
    )
}

/// The target that a pull-request URL names.
#[derive(Debug, PartialEq, Eq)]
pub struct ParsedUrl {
    /// The host of the URL, as the URL parser gives it.
    pub hostname: String,
    /// The repository, as `owner/name`.
    pub repo: String,
    pub pr_number: u64,
    /// The inline comment that the fragment names, if there is a fragment.
    pub comment_id: Option<u64>,
}

/// The mathematical value of a [`ParsedUrl`].
pub struct ParsedUrlView {
    pub hostname: Seq<char>,
    pub repo: Seq<char>,
    pub pr_number: u64,
    pub comment_id: Option<u64>,
}

impl View for ParsedUrl {
    type V = ParsedUrlView;

    open spec fn view(&self) -> ParsedUrlView {
        ParsedUrlView {
            hostname: self.hostname@,
            repo: self.repo@,
            pr_number: self.pr_number,
            comment_id: self.comment_id,
        }
    }
}

/// The comment that a URL fragment names: the fragment is `discussion_r`
/// followed by the decimal digits of the comment's number, and nothing else.
pub open spec fn comment_id_of(fragment: Seq<char>) -> Result<u64, ClientErrorView> {
    match without_prefix(fragment, "discussion_r"@) {
        None => Err(ClientErrorView::Parse { fault: UrlError::Fragment, text: fragment }),
        Some(digits) => match decimal_of(digits) {
            Some(id) => Ok(id),
            None => Err(ClientErrorView::Parse { fault: UrlError::CommentId, text: fragment }),
        },
    }
}

/// Whether the path segments are exactly `{owner}/{name}/pull/{number}`.
pub open spec fn is_pr_path(segments: Seq<Seq<char>>) -> bool {
    segments.len() == 4 && segments[2] == "pull"@
}

/// The target that the components `parts` of the URL `raw` name.
pub open spec fn pr_target_of(raw: Seq<char>, parts: UrlPartsView) -> Result<
    ParsedUrlView,
    ClientErrorView,
> {
    if parts.path_segments is None || !is_pr_path(parts.path_segments->Some_0)
        || parts.host is None {
        Err(ClientErrorView::Parse { fault: UrlError::Path, text: raw })
    } else {
        let segments = parts.path_segments->Some_0;
        match decimal_of(segments[3]) {
            None => Err(ClientErrorView::Parse { fault: UrlError::PrNumber, text: raw }),
            Some(pr_number) => {
                let hostname = parts.host->Some_0;
                let repo = segments[0] + "/"@ + segments[1];
                match parts.fragment {
                    None => Ok(ParsedUrlView { hostname, repo, pr_number, comment_id: None }),
                    Some(fragment) => match comment_id_of(fragment) {
                        Ok(id) => Ok(
                            ParsedUrlView { hostname, repo, pr_number, comment_id: Some(id) },
                        ),
                        Err(e) => Err(e),
                    },
                }
            },
        }
    }
}

/// The target that the text `raw` names: `raw` must be an absolute URL, and
/// its components must name a pull request.
pub open spec fn parsed_pr_url(raw: Seq<char>) -> Result<ParsedUrlView, ClientErrorView> {
    match url_parts(raw) {
        None => Err(ClientErrorView::Parse { fault: UrlError::Url, text: raw }),
        Some(parts) => pr_target_of(raw, parts),
    }
}

/// Reads the comment's number from the fragment of a pull-request URL.
pub fn parse_comment_fragment(fragment: &str) -> (r: Result<u64, ClientError>)
    ensures
        result_view(r) == comment_id_of(fragment@),
{
    match strip_prefix(fragment, "discussion_r") {
        Some(digits) => match parse_decimal(digits.as_str()) {
            Some(id) => Ok(id),
            None => Err(ClientError::Parse { fault: UrlError::CommentId, text: fragment.to_owned() }),
        },
        None => Err(ClientError::Parse { fault: UrlError::Fragment, text: fragment.to_owned() }),
    }
}

/// Reads the target of a pull-request URL from the components of the URL;
/// `raw` is the text they were parsed from and is kept for the error.
pub fn pr_target_from_parts(raw: &str, parts: &UrlParts) -> (r: Result<ParsedUrl, ClientError>)
    ensures
        result_view(r) == pr_target_of(raw@, parts@),
{
    let segments = match &parts.path_segments {
        Some(segments) => segments,
        None => {
            return Err(ClientError::Parse { fault: UrlError::Path, text: raw.to_owned() });
        },
    };
    if segments.len() != 4 || !same_text(segments[2].as_str(), "pull") {
        return Err(ClientError::Parse { fault: UrlError::Path, text: raw.to_owned() });
    }
    let hostname = match &parts.host {
        Some(host) => host.clone(),
        None => {
            return Err(ClientError::Parse { fault: UrlError::Path, text: raw.to_owned() });
        },
    };
    let pr_number = match parse_decimal(segments[3].as_str()) {
        Some(n) => n,
        None => {
            return Err(ClientError::Parse { fault: UrlError::PrNumber, text: raw.to_owned() });
        },
    };
    let mut repo = segments[0].clone();
    repo.append("/");
    repo.append(segments[1].as_str());
    let comment_id = match &parts.fragment {
        Some(fragment) => match parse_comment_fragment(fragment.as_str()) {
            Ok(id) => Some(id),
            Err(e) => {
                return Err(e);
            },
        },
        None => None,
    };
    Ok(ParsedUrl { hostname, repo, pr_number, comment_id })
}

/// Parses the web URL of a pull request, with or without the fragment that
/// names one inline comment.
pub fn parse_github_pr_url(raw: &str) -> (r: Result<ParsedUrl, ClientError>)
    ensures
        result_view(r) == parsed_pr_url(raw@),
{
    match split_url(raw) {
        Ok(parts) => pr_target_from_parts(raw, &parts),
        Err(_) => Err(ClientError::Parse { fault: UrlError::Url, text: raw.to_owned() }),
    }
}

} // verus!
