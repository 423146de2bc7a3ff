use gh_pr_get_comments::credentials::{
    fetch_token, token_from_env, token_from_gh, token_lookup, TokenLookup, TokenSource, TokenStep,
};
use gh_pr_get_comments::error::ClientError;

/// Runs the search with an environment and a helper that answer as given,
/// and returns the lookups that were made and the outcome.
fn search(
    hostname: &str,
    env: &[(&str, &str)],
    helper: Option<(bool, &[u8])>,
) -> (Vec<TokenLookup>, Result<String, ClientError>) {
    let mut lookups = Vec::new();
    let mut source = TokenSource::PrimaryEnv;
    loop {
        let lookup = token_lookup(hostname, source);
        let found = match &lookup {
            TokenLookup::ReadEnv { name } => {
                token_from_env(env.iter().find(|(key, _)| key == name).map(|(_, value)| *value))
            }
            TokenLookup::RunHelper { .. } => match helper {
                Some((success, stdout)) => token_from_gh(success, stdout),
                None => panic!("the helper must not run"),
            },
        };
        lookups.push(lookup);
        match fetch_token(hostname, source, found) {
            TokenStep::Ask(next) => source = next,
            TokenStep::Found(credential) => return (lookups, Ok(credential.token().to_string())),
            TokenStep::Failed(e) => return (lookups, Err(e)),
        }
    }
}

fn read_env(name: &str) -> TokenLookup {
    TokenLookup::ReadEnv { name: name.to_string() }
}

fn run_helper(hostname: &str) -> TokenLookup {
    TokenLookup::RunHelper {
        program: "gh".to_string(),
        args: ["auth", "token", "--secure-storage", "--hostname", hostname]
            .iter()
            .map(|arg| arg.to_string())
            .collect(),
    }
}

#[test]
fn hosted_domain_reads_its_two_variables() {
    for hostname in ["github.com", "GitHub.com"] {
        assert_eq!(token_lookup(hostname, TokenSource::PrimaryEnv), read_env("GH_TOKEN"));
        assert_eq!(token_lookup(hostname, TokenSource::LegacyEnv), read_env("GITHUB_TOKEN"));
    }
}

#[test]
fn other_hosts_read_the_enterprise_variables() {
    let hostname = "ghe.example.com";
    assert_eq!(token_lookup(hostname, TokenSource::PrimaryEnv), read_env("GH_ENTERPRISE_TOKEN"));
    assert_eq!(
        token_lookup(hostname, TokenSource::LegacyEnv),
        read_env("GITHUB_ENTERPRISE_TOKEN")
    );
}

#[test]
fn helper_is_asked_for_the_hostname() {
    assert_eq!(
        token_lookup("ghe.example.com", TokenSource::Helper),
        run_helper("ghe.example.com")
    );
}

#[test]
fn primary_variable_wins_and_helper_does_not_run() {
    let env = [("GH_TOKEN", "from-env"), ("GITHUB_TOKEN", "legacy")];
    let (lookups, outcome) = search("github.com", &env, None);
    assert_eq!(lookups, vec![read_env("GH_TOKEN")]);
    assert_eq!(outcome, Ok("from-env".to_string()));
}

#[test]
fn legacy_variable_is_second() {
    let env = [("GITHUB_ENTERPRISE_TOKEN", "legacy"), ("GH_TOKEN", "hosted")];
    let (lookups, outcome) = search("ghe.example.com", &env, None);
    assert_eq!(
        lookups,
        vec![read_env("GH_ENTERPRISE_TOKEN"), read_env("GITHUB_ENTERPRISE_TOKEN")]
    );
    assert_eq!(outcome, Ok("legacy".to_string()));
}

#[test]
fn blank_variable_counts_as_unset() {
    let env = [("GH_TOKEN", " \t\n"), ("GITHUB_TOKEN", "")];
    let (lookups, outcome) = search("github.com", &env, Some((true, b"from-helper\n")));
    assert_eq!(
        lookups,
        vec![read_env("GH_TOKEN"), read_env("GITHUB_TOKEN"), run_helper("github.com")]
    );
    assert_eq!(outcome, Ok("from-helper".to_string()));
}

#[test]
fn search_fails_when_no_source_has_a_token() {
    for helper in [(false, &b"token"[..]), (true, &b""[..]), (true, &b" \n"[..])] {
        let (lookups, outcome) = search("ghe.example.com", &[], Some(helper));
        assert_eq!(lookups.len(), 3);
        assert_eq!(outcome, Err(ClientError::Auth { hostname: "ghe.example.com".to_string() }));
    }
}

#[test]
fn variable_value_is_kept_as_it_is() {
    assert_eq!(token_from_env(Some("abc")).unwrap().token(), "abc");
    assert_eq!(token_from_env(Some(" abc ")).unwrap().token(), " abc ");
    assert_eq!(token_from_env(Some("")), None);
    assert_eq!(token_from_env(Some("\u{a0}\u{3000}")), None);
    assert_eq!(token_from_env(None), None);
}

#[test]
fn helper_output_is_trimmed() {
    assert_eq!(token_from_gh(true, b"  gho_abc\r\n").unwrap().token(), "gho_abc");
    assert_eq!(token_from_gh(true, b"a b").unwrap().token(), "a b");
    assert_eq!(token_from_gh(true, "\u{2003}t\u{e9}\u{2003}".as_bytes()).unwrap().token(), "t\u{e9}");
    assert_eq!(token_from_gh(true, &[b'x', 0xff]).unwrap().token(), "x\u{fffd}");
    assert_eq!(token_from_gh(false, b"gho_abc"), None);
    assert_eq!(token_from_gh(true, b"\n"), None);
}

#[test]
fn each_step_follows_the_answer() {
    let host = "github.com";
    assert_eq!(fetch_token(host, TokenSource::PrimaryEnv, None), TokenStep::Ask(TokenSource::LegacyEnv));
    assert_eq!(fetch_token(host, TokenSource::LegacyEnv, None), TokenStep::Ask(TokenSource::Helper));
    assert_eq!(
        fetch_token(host, TokenSource::Helper, None),
        TokenStep::Failed(ClientError::Auth { hostname: host.to_string() })
    );
    for source in [TokenSource::PrimaryEnv, TokenSource::LegacyEnv, TokenSource::Helper] {
        match fetch_token(host, source, token_from_env(Some("t"))) {
            TokenStep::Found(credential) => assert_eq!(credential.token(), "t"),
            other => panic!("unexpected step: {other:?}"),
        }
    }
}
