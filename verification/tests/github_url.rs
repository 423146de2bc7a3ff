use gh_pr_get_comments::error::{ClientError, UrlError};
use gh_pr_get_comments::github_url::{
    parse_comment_fragment, parse_github_pr_url, pr_target_from_parts, ParsedUrl, UrlParts,
};

fn parse_failure(fault: UrlError, text: &str) -> ClientError {
    ClientError::Parse { fault, text: text.to_string() }
}

#[test]
fn parses_valid_url() {
    let parsed =
        parse_github_pr_url("https://github.com/owner/repo/pull/123#discussion_r456789").unwrap();
    assert_eq!(parsed.repo, "owner/repo");
    assert_eq!(parsed.pr_number, 123);
    assert_eq!(parsed.comment_id, Some(456_789));
}

#[test]
fn accepts_missing_fragment() {
    let parsed = parse_github_pr_url("https://github.com/owner/repo/pull/123").unwrap();
    assert_eq!(parsed.repo, "owner/repo");
    assert_eq!(parsed.pr_number, 123);
    assert_eq!(parsed.comment_id, None);
}

#[test]
fn returns_the_hostname_of_the_url() {
    let parsed = parse_github_pr_url("https://ghe.example.com/owner/repo/pull/7").unwrap();
    assert_eq!(
        parsed,
        ParsedUrl {
            hostname: "ghe.example.com".to_string(),
            repo: "owner/repo".to_string(),
            pr_number: 7,
            comment_id: None,
        }
    );
}

#[test]
fn rejects_text_that_is_no_url() {
    let raw = "owner/repo/pull/123";
    assert_eq!(parse_github_pr_url(raw), Err(parse_failure(UrlError::Url, raw)));
}

#[test]
fn rejects_fragment_of_another_shape() {
    let raw = "https://github.com/owner/repo/pull/123#issuecomment-456789";
    assert_eq!(
        parse_github_pr_url(raw),
        Err(parse_failure(UrlError::Fragment, "issuecomment-456789"))
    );
}

#[test]
fn rejects_fragment_without_digits() {
    let raw = "https://github.com/owner/repo/pull/123#discussion_r";
    assert_eq!(
        parse_github_pr_url(raw),
        Err(parse_failure(UrlError::CommentId, "discussion_r"))
    );
}

#[test]
fn rejects_non_numeric_pr_segment() {
    let raw = "https://github.com/owner/repo/pull/abc";
    assert_eq!(parse_github_pr_url(raw), Err(parse_failure(UrlError::PrNumber, raw)));
}

#[test]
fn rejects_path_without_pull_segment() {
    let raw = "https://github.com/owner/repo/issues/123";
    assert_eq!(parse_github_pr_url(raw), Err(parse_failure(UrlError::Path, raw)));
}

#[test]
fn rejects_short_path() {
    let raw = "https://github.com/owner/repo";
    assert_eq!(parse_github_pr_url(raw), Err(parse_failure(UrlError::Path, raw)));
}

#[test]
fn rejects_trailing_segments() {
    let raw = "https://github.com/owner/repo/pull/123/files";
    assert_eq!(parse_github_pr_url(raw), Err(parse_failure(UrlError::Path, raw)));
    let raw = "https://github.com/owner/repo/pull/123/";
    assert_eq!(parse_github_pr_url(raw), Err(parse_failure(UrlError::Path, raw)));
}

#[test]
fn path_is_checked_before_number_and_fragment() {
    let raw = "https://github.com/owner/repo/issues/abc#nothing";
    assert_eq!(parse_github_pr_url(raw), Err(parse_failure(UrlError::Path, raw)));
    let raw = "https://github.com/owner/repo/pull/abc#nothing";
    assert_eq!(parse_github_pr_url(raw), Err(parse_failure(UrlError::PrNumber, raw)));
}

#[test]
fn pr_number_must_fit_64_bits() {
    let parsed =
        parse_github_pr_url("https://github.com/owner/repo/pull/18446744073709551615").unwrap();
    assert_eq!(parsed.pr_number, u64::MAX);
    let raw = "https://github.com/owner/repo/pull/18446744073709551616";
    assert_eq!(parse_github_pr_url(raw), Err(parse_failure(UrlError::PrNumber, raw)));
}

#[test]
fn query_does_not_disturb_the_target() {
    let parsed =
        parse_github_pr_url("https://github.com/owner/repo/pull/5?diff=split#discussion_r9")
            .unwrap();
    assert_eq!(parsed.repo, "owner/repo");
    assert_eq!(parsed.pr_number, 5);
    assert_eq!(parsed.comment_id, Some(9));
}

#[test]
fn comment_fragment_is_prefix_and_digits() {
    assert_eq!(parse_comment_fragment("discussion_r456789"), Ok(456_789));
    assert_eq!(parse_comment_fragment("discussion_r0"), Ok(0));
    assert_eq!(parse_comment_fragment("discussion_r007"), Ok(7));
    assert_eq!(
        parse_comment_fragment("discussion_r18446744073709551615"),
        Ok(u64::MAX)
    );
}

#[test]
fn comment_fragment_rejects_other_text() {
    for fragment in ["", "discussion", "Discussion_r1", "r1", " discussion_r1"] {
        assert_eq!(
            parse_comment_fragment(fragment),
            Err(parse_failure(UrlError::Fragment, fragment))
        );
    }
    for fragment in [
        "discussion_r",
        "discussion_r12a",
        "discussion_r+5",
        "discussion_r-5",
        "discussion_r 5",
        "discussion_r18446744073709551616",
    ] {
        assert_eq!(
            parse_comment_fragment(fragment),
            Err(parse_failure(UrlError::CommentId, fragment))
        );
    }
}

#[test]
fn target_is_read_from_given_parts() {
    let parts = UrlParts {
        host: Some("example.org".to_string()),
        path_segments: Some(vec![
            "o".to_string(),
            "n".to_string(),
            "pull".to_string(),
            "42".to_string(),
        ]),
        fragment: Some("discussion_r1".to_string()),
    };
    assert_eq!(
        pr_target_from_parts("raw", &parts),
        Ok(ParsedUrl {
            hostname: "example.org".to_string(),
            repo: "o/n".to_string(),
            pr_number: 42,
            comment_id: Some(1),
        })
    );
}

#[test]
fn target_needs_host_and_segments() {
    let segments = vec!["o".to_string(), "n".to_string(), "pull".to_string(), "42".to_string()];
    let no_host = UrlParts { host: None, path_segments: Some(segments), fragment: None };
    assert_eq!(
        pr_target_from_parts("raw", &no_host),
        Err(parse_failure(UrlError::Path, "raw"))
    );
    let no_path =
        UrlParts { host: Some("example.org".to_string()), path_segments: None, fragment: None };
    assert_eq!(
        pr_target_from_parts("raw", &no_path),
        Err(parse_failure(UrlError::Path, "raw"))
    );
}
