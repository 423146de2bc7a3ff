use gh_pr_get_comments::credentials::token_from_env;
use gh_pr_get_comments::error::{ClientError, FormatError};
use gh_pr_get_comments::github_api::{
    api_base_for, read_reply, Comment, Fetch, FetchStep, Fetched, GitHubApi, Payload, Reply,
    Request, API_BASE, PER_PAGE,
};

fn session(hostname: &str) -> GitHubApi {
    GitHubApi::new(hostname, token_from_env(Some("s3cr3t")).unwrap())
}

fn numbered_comment(i: usize) -> Comment {
    Comment { html_url: Some(format!("https://example.org/c/{i}")), body: Some(format!("body {i}")) }
}

fn json_of_comments(from: usize, to: usize) -> Vec<u8> {
    let items: Vec<String> = (from..to)
        .map(|i| format!("{{\"id\":{i},\"html_url\":\"https://example.org/c/{i}\",\"body\":\"body {i}\"}}"))
        .collect();
    format!("[{}]", items.join(",")).into_bytes()
}

fn ok_reply(body: Vec<u8>) -> Reply {
    Reply::Response { status: 200, body }
}

/// Runs a fetch of all comments against a collection of `total` comments
/// and returns the addresses that were requested and what was fetched.
fn fetch_all_from_collection(total: usize) -> (Vec<String>, Vec<Comment>) {
    let api = session("github.com");
    let mut fetch = api.fetch_pr_comments("owner/repo", 17, None);
    let mut urls = Vec::new();
    loop {
        let request = api.next_request(&fetch);
        let page = urls.len() + 1;
        urls.push(request.url);
        let from = ((page - 1) * PER_PAGE).min(total);
        let to = (page * PER_PAGE).min(total);
        match fetch.advance(&ok_reply(json_of_comments(from, to))) {
            FetchStep::Continue(next) => fetch = next,
            FetchStep::Done(Fetched::Comments(list)) => return (urls, list),
            other => panic!("unexpected step: {other:?}"),
        }
    }
}

fn page_urls(pages: usize) -> Vec<String> {
    (1..=pages)
        .map(|n| {
            format!("https://api.github.com/repos/owner/repo/pulls/17/comments?per_page=100&page={n}")
        })
        .collect()
}

#[test]
fn api_base_defaults_to_github() {
    assert_eq!(api_base_for("github.com"), API_BASE);
}

#[test]
fn api_base_for_ghe() {
    assert_eq!(
        api_base_for("ghe.example.com"),
        "https://ghe.example.com/api/v3"
    );
}

#[test]
fn api_base_takes_the_hostname_as_it_is() {
    assert_eq!(API_BASE, "https://api.github.com");
    assert_eq!(api_base_for("GitHub.com"), "https://GitHub.com/api/v3");
    assert_eq!(api_base_for("10.0.0.1:8443"), "https://10.0.0.1:8443/api/v3");
    assert_eq!(api_base_for("api.github.com"), "https://api.github.com/api/v3");
    assert_eq!(api_base_for(""), "https:///api/v3");
}

#[test]
fn session_holds_the_api_base() {
    assert_eq!(session("github.com").api_base(), "https://api.github.com");
    assert_eq!(session("ghe.example.com").api_base(), "https://ghe.example.com/api/v3");
}

#[test]
fn request_carries_the_four_headers() {
    let request = session("github.com").fetch_json("https://api.github.com/x");
    let header = |name: &str, value: &str| (name.to_string(), value.to_string());
    assert_eq!(
        request,
        Request {
            url: "https://api.github.com/x".to_string(),
            headers: vec![
                header("Authorization", "Bearer s3cr3t"),
                header("Accept", "application/vnd.github+json"),
                header("X-GitHub-Api-Version", "2022-11-28"),
                header("User-Agent", "gh-pr-get-comments"),
            ],
        }
    );
}

#[test]
fn single_comment_is_one_request() {
    let api = session("ghe.example.com");
    let fetch = api.fetch_pr_comments("owner/repo", 17, Some(456_789));
    assert_eq!(
        api.next_request(&fetch).url,
        "https://ghe.example.com/api/v3/repos/owner/repo/pulls/comments/456789"
    );
    let body = b"{\"html_url\":\"https://example.org/c/1\",\"body\":\"text\",\"id\":1}".to_vec();
    assert_eq!(
        fetch.advance(&ok_reply(body)),
        FetchStep::Done(Fetched::Comment(Comment {
            html_url: Some("https://example.org/c/1".to_string()),
            body: Some("text".to_string()),
        }))
    );
}

#[test]
fn single_comment_must_be_an_object() {
    for body in ["[]", "[{\"html_url\":\"u\"}]", "null", "3", "\"text\"", "true"] {
        let fetch = session("github.com").fetch_pr_comment("owner/repo", 1);
        assert_eq!(
            fetch.advance(&ok_reply(body.as_bytes().to_vec())),
            FetchStep::Failed(ClientError::Format(FormatError::ExpectedObject))
        );
    }
}

#[test]
fn page_must_be_an_array() {
    for body in ["{}", "{\"html_url\":\"u\"}", "null", "3", "\"text\"", "false"] {
        let fetch = session("github.com").fetch_all_pr_comments("owner/repo", 1);
        assert_eq!(
            fetch.advance(&ok_reply(body.as_bytes().to_vec())),
            FetchStep::Failed(ClientError::Format(FormatError::ExpectedArray))
        );
    }
}

#[test]
fn two_and_a_half_pages_take_three_requests() {
    let (urls, list) = fetch_all_from_collection(250);
    assert_eq!(urls, page_urls(3));
    assert_eq!(list, (0..250).map(numbered_comment).collect::<Vec<_>>());
}

#[test]
fn two_full_pages_take_three_requests() {
    let (urls, list) = fetch_all_from_collection(200);
    assert_eq!(urls, page_urls(3));
    assert_eq!(list, (0..200).map(numbered_comment).collect::<Vec<_>>());
}

#[test]
fn no_comments_take_one_request() {
    let (urls, list) = fetch_all_from_collection(0);
    assert_eq!(urls, page_urls(1));
    assert_eq!(list, Vec::new());
}

#[test]
fn page_sizes_around_the_limit() {
    for (total, pages) in [(1, 1), (99, 1), (100, 2), (101, 2), (199, 2), (300, 4)] {
        let (urls, list) = fetch_all_from_collection(total);
        assert_eq!(urls, page_urls(pages));
        assert_eq!(list, (0..total).map(numbered_comment).collect::<Vec<_>>());
    }
}

#[test]
fn failure_on_a_later_page_drops_what_was_collected() {
    let api = session("github.com");
    let mut fetch: Fetch = api.fetch_all_pr_comments("owner/repo", 17);
    for page in 0..2 {
        fetch = match fetch.advance(&ok_reply(json_of_comments(page * 100, page * 100 + 100))) {
            FetchStep::Continue(next) => next,
            other => panic!("unexpected step: {other:?}"),
        };
    }
    assert_eq!(
        api.next_request(&fetch).url,
        "https://api.github.com/repos/owner/repo/pulls/17/comments?per_page=100&page=3"
    );
    let reply = Reply::Response { status: 502, body: b"bad gateway".to_vec() };
    assert_eq!(
        fetch.advance(&reply),
        FetchStep::Failed(ClientError::Api { status: 502, body: "bad gateway".to_string() })
    );
}

#[test]
fn accept_takes_a_decoded_payload() {
    let fetch = session("github.com").fetch_all_pr_comments("owner/repo", 17);
    let batch = vec![numbered_comment(1), numbered_comment(2)];
    assert_eq!(
        fetch.accept(Ok(Payload::Array(batch))),
        FetchStep::Done(Fetched::Comments(vec![numbered_comment(1), numbered_comment(2)]))
    );
    let fetch = session("github.com").fetch_all_pr_comments("owner/repo", 17);
    assert_eq!(fetch.accept(Err(ClientError::Decode)), FetchStep::Failed(ClientError::Decode));
    let fetch = session("github.com").fetch_pr_comment("owner/repo", 17);
    assert_eq!(
        fetch.accept(Ok(Payload::Other)),
        FetchStep::Failed(ClientError::Format(FormatError::ExpectedObject))
    );
}

#[test]
fn unreachable_server_is_a_network_error() {
    let reply = Reply::Unreachable { detail: "connection refused".to_string() };
    assert_eq!(
        read_reply(&reply),
        Err(ClientError::Network { detail: "connection refused".to_string() })
    );
}

#[test]
fn status_outside_success_is_an_api_error() {
    for status in [100, 199, 300, 301, 404, 500] {
        let reply = Reply::Response { status, body: b"{\"message\":\"Not Found\"}".to_vec() };
        assert_eq!(
            read_reply(&reply),
            Err(ClientError::Api { status, body: "{\"message\":\"Not Found\"}".to_string() })
        );
    }
    for status in [200, 201, 204, 299] {
        let reply = Reply::Response { status, body: b"[]".to_vec() };
        assert_eq!(read_reply(&reply), Ok(Payload::Array(Vec::new())));
    }
}

#[test]
fn api_error_body_replaces_invalid_bytes() {
    let reply = Reply::Response { status: 500, body: vec![b'a', 0xff, b'b'] };
    assert_eq!(
        read_reply(&reply),
        Err(ClientError::Api { status: 500, body: "a\u{fffd}b".to_string() })
    );
}

#[test]
fn malformed_body_is_a_decode_error() {
    for body in ["", "[", "{\"html_url\":", "not json", "[1,]"] {
        assert_eq!(read_reply(&ok_reply(body.as_bytes().to_vec())), Err(ClientError::Decode));
    }
    assert_eq!(read_reply(&ok_reply(vec![b'"', 0xff, b'"'])), Err(ClientError::Decode));
}

#[test]
fn members_that_are_absent_or_no_strings_are_none() {
    let body = b"[{\"html_url\":\"u\"},{\"body\":\"b\"},{\"html_url\":1,\"body\":null},7,{}]";
    assert_eq!(
        read_reply(&ok_reply(body.to_vec())),
        Ok(Payload::Array(vec![
            Comment { html_url: Some("u".to_string()), body: None },
            Comment { html_url: None, body: Some("b".to_string()) },
            Comment { html_url: None, body: None },
            Comment { html_url: None, body: None },
            Comment { html_url: None, body: None },
        ]))
    );
    assert_eq!(read_reply(&ok_reply(b"17".to_vec())), Ok(Payload::Other));
}

#[test]
fn strings_are_unescaped() {
    let body = b"{\"html_url\":\"https:\\/\\/example.org\",\"body\":\"line 1\\nline \\u00e9\"}";
    assert_eq!(
        read_reply(&ok_reply(body.to_vec())),
        Ok(Payload::Object(Comment {
            html_url: Some("https://example.org".to_string()),
            body: Some("line 1\nline \u{e9}".to_string()),
        }))
    );
}
