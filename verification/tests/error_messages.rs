use gh_pr_get_comments::error::{ClientError, FormatError, UrlError, ValidationError};

#[test]
fn auth_message_names_the_host() {
    let e = ClientError::Auth { hostname: "ghe.example.com".to_string() };
    assert_eq!(e.message(), "token for ghe.example.com not found.");
}

#[test]
fn transport_messages() {
    let e = ClientError::Network { detail: "connection refused".to_string() };
    assert_eq!(e.message(), "Failed to reach GitHub API: connection refused");
    let e = ClientError::Api { status: 404, body: "{\"message\":\"Not Found\"}".to_string() };
    assert_eq!(e.message(), "GitHub API error: 404 {\"message\":\"Not Found\"}");
    let e = ClientError::Api { status: 0, body: String::new() };
    assert_eq!(e.message(), "GitHub API error: 0 ");
    assert_eq!(ClientError::Decode.message(), "Failed to parse JSON response");
}

#[test]
fn format_messages() {
    assert_eq!(
        ClientError::Format(FormatError::ExpectedArray).message(),
        "Unexpected GitHub API response format"
    );
    assert_eq!(
        ClientError::Format(FormatError::ExpectedObject).message(),
        "Unexpected GitHub API response format"
    );
    assert_eq!(
        ClientError::Format(FormatError::MissingHtmlUrl).message(),
        "Missing html_url in comment"
    );
}

#[test]
fn parse_messages_name_the_text() {
    let message = |fault: UrlError, text: &str| {
        ClientError::Parse { fault, text: text.to_string() }.message()
    };
    assert_eq!(message(UrlError::Url, "x y"), "Failed to parse URL: x y");
    assert_eq!(message(UrlError::Path, "https://h/a"), "Invalid PR URL format: https://h/a");
    assert_eq!(
        message(UrlError::PrNumber, "https://h/o/n/pull/x"),
        "Failed to parse PR number: https://h/o/n/pull/x"
    );
    assert_eq!(message(UrlError::Fragment, "top"), "Invalid comment ID fragment: #top");
    assert_eq!(
        message(UrlError::CommentId, "discussion_rx"),
        "Failed to parse comment ID: #discussion_rx"
    );
}

#[test]
fn validation_messages() {
    let e = ClientError::Validation { rule: ValidationError::Repo, text: "owner".to_string() };
    assert_eq!(e.message(), "Specify --repo owner/repo (e.g. --repo owner/repo)");
    let e = ClientError::Validation { rule: ValidationError::Hostname, text: "/x".to_string() };
    assert_eq!(e.message(), "Invalid --hostname: /x");
}
