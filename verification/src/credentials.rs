use crate::error::{ClientError, ClientErrorView};
use crate::host::{is_hosted, is_hosted_domain};
use crate::text::{
    is_blank, lemma_trimmed_idempotent, text_from_utf8_lossy, trim, trimmed, utf8_lossy,
};
use vstd::prelude::*;

verus! {

/// A bearer token. It is never blank.
#[derive(Debug, PartialEq, Eq)]
pub struct Credential {
    token: String,
}

impl View for Credential {
    type V = Seq<char>;

    closed spec fn view(&self) -> Seq<char> {
        self.token@
    }
}

impl Credential {
    #[verifier::type_invariant]
    spec fn holds_a_token(self) -> bool {
        !is_blank(self.token@)
    }

    /// The token.
    pub fn token(&self) -> (r: &str)
        ensures
            r@ == self@,
            !is_blank(r@),
    {
        proof {
            use_type_invariant(self);
        }
        self.token.as_str()
    }
}

/// The places where a token is looked for, in the order in which they are
/// asked.
#[derive(Clone, Copy, Debug, PartialEq, Eq, Structural)]
pub enum TokenSource {
    /// The primary environment variable for the host.
    PrimaryEnv,
    /// The legacy environment variable for the host.
    LegacyEnv,
    /// The credential helper, a process of its own.
    Helper,
}

/// What the caller has to do to ask a [`TokenSource`].
#[derive(Debug, PartialEq, Eq)]
pub enum TokenLookup {
    /// Read the environment variable `name`.
    ReadEnv { name: String },
    /// Run `program` with `args` and capture its exit status and standard
    /// output.
    RunHelper { program: String, args: Vec<String> },
}

/// The mathematical value of a [`TokenLookup`].
pub enum TokenLookupView {
    ReadEnv { name: Seq<char> },
    RunHelper { program: Seq<char>, args: Seq<Seq<char>> },
}

impl View for TokenLookup {
    type V = TokenLookupView;

    open spec fn view(&self) -> TokenLookupView {
        match *self {
            TokenLookup::ReadEnv { name } => TokenLookupView::ReadEnv { name: name@ },
            TokenLookup::RunHelper { program, args } => TokenLookupView::RunHelper {
                program: program@,
                args: args.deep_view(),
            },
        }
    }
}

/// What follows the answer of one source.
#[derive(Debug, PartialEq, Eq)]
pub enum TokenStep {
    /// The source had no token: ask the next one.
    Ask(TokenSource),
    /// The token.
    Found(Credential),
    /// No source had a token.
    Failed(ClientError),
}

/// The mathematical value of a [`TokenStep`].
pub enum TokenStepView {
    Ask(TokenSource),
    Found(Seq<char>),
    Failed(ClientErrorView),
}

impl View for TokenStep {
    type V = TokenStepView;

    open spec fn view(&self) -> TokenStepView {
        match *self {
            TokenStep::Ask(source) => TokenStepView::Ask(source),
            TokenStep::Found(credential) => TokenStepView::Found(credential@),
            TokenStep::Failed(e) => TokenStepView::Failed(e@),
        }
    }
}

/// How `source` is asked for the token of `hostname`.
pub open spec fn lookup_for(hostname: Seq<char>, source: TokenSource) -> TokenLookupView {
    match source {
        TokenSource::PrimaryEnv => TokenLookupView::ReadEnv {
            name: if is_hosted(hostname) {
                "GH_TOKEN"@
            } else {
                "GH_ENTERPRISE_TOKEN"@
            },
        },
        TokenSource::LegacyEnv => TokenLookupView::ReadEnv {
            name: if is_hosted(hostname) {
                "GITHUB_TOKEN"@
            } else {
                "GITHUB_ENTERPRISE_TOKEN"@
            },
        },
        TokenSource::Helper => TokenLookupView::RunHelper {
            program: "gh"@,
            args: seq!["auth"@, "token"@, "--secure-storage"@, "--hostname"@, hostname],
        },
    }
}

/// The token that an environment variable gives: its value, unless the
/// variable is unset or blank.
pub open spec fn env_token(value: Option<Seq<char>>) -> Option<Seq<char>> {
    match value {
        Some(v) => if is_blank(v) {
            None
        } else {
            Some(v)
        },
        None => None,
    }
}

/// The token that the credential helper gives: its trimmed output, unless
/// it failed or the output is blank.
pub open spec fn helper_token(success: bool, stdout: Seq<u8>) -> Option<Seq<char>> {
    if success && !is_blank(utf8_lossy(stdout)) {
        Some(trimmed(utf8_lossy(stdout)))
    } else {
        None
    }
}

/// What follows when `source` has answered `found` for `hostname`: the
/// first token that is found ends the search, and the next source is asked
/// only where none was found.
pub open spec fn token_step(
    hostname: Seq<char>,
    source: TokenSource,
    found: Option<Seq<char>>,
) -> TokenStepView {
    match found {
        Some(token) => TokenStepView::Found(token),
        None => match source {
            TokenSource::PrimaryEnv => TokenStepView::Ask(TokenSource::LegacyEnv),
            TokenSource::LegacyEnv => TokenStepView::Ask(TokenSource::Helper),
            TokenSource::Helper => TokenStepView::Failed(ClientErrorView::Auth { hostname }),
        },
    }
}

/// What each source would answer if it were asked.
pub struct TokenAnswers {
    pub primary_env: Option<Seq<char>>,
    pub legacy_env: Option<Seq<char>>,
    pub helper_success: bool,
    pub helper_stdout: Seq<u8>,
}

/// The token that `source` gives under `answers`.
pub open spec fn answer_of(answers: TokenAnswers, source: TokenSource) -> Option<Seq<char>> {
    match source {
        TokenSource::PrimaryEnv => env_token(answers.primary_env),
        TokenSource::LegacyEnv => env_token(answers.legacy_env),
        TokenSource::Helper => helper_token(answers.helper_success, answers.helper_stdout),
    }
}

/// How many sources stand behind `source`.
pub open spec fn sources_left(source: TokenSource) -> nat {
    match source {
        TokenSource::PrimaryEnv => 2,
        TokenSource::LegacyEnv => 1,
        TokenSource::Helper => 0,
    }
}

/// A whole search that starts at `source`: the sources that are asked, in
/// order, and the outcome.
pub open spec fn token_search(hostname: Seq<char>, answers: TokenAnswers, source: TokenSource) -> (
    Seq<TokenSource>,
    Result<Seq<char>, ClientErrorView>,
)
    decreases sources_left(source),
{
    match token_step(hostname, source, answer_of(answers, source)) {
        TokenStepView::Found(token) => (seq![source], Ok(token)),
        TokenStepView::Failed(e) => (seq![source], Err(e)),
        TokenStepView::Ask(next) => if sources_left(next) < sources_left(source) {
            let (asked, outcome) = token_search(hostname, answers, next);
            (seq![source] + asked, outcome)
        } else {
            // a step never asks an earlier source
            (seq![source], Err(ClientErrorView::Auth { hostname }))
        },
    }
}

/// Where the primary environment variable holds a token, the search ends
/// with that value after one lookup: neither the legacy variable nor the
/// helper is asked, whatever they would answer.
pub proof fn lemma_primary_env_wins(hostname: Seq<char>, answers: TokenAnswers)
    requires
        env_token(answers.primary_env) is Some,
    ensures
        token_search(hostname, answers, TokenSource::PrimaryEnv) == (
            seq![TokenSource::PrimaryEnv],
            Ok::<Seq<char>, ClientErrorView>(answers.primary_env->Some_0),
        ),
{
}

/// The helper is asked exactly when neither environment variable holds a
/// token, and a search fails exactly when no source holds one.
pub proof fn lemma_helper_is_last_resort(hostname: Seq<char>, answers: TokenAnswers)
    ensures
        ({
            let (asked, outcome) = token_search(hostname, answers, TokenSource::PrimaryEnv);
            &&& asked.contains(TokenSource::Helper) <==> env_token(answers.primary_env) is None
                && env_token(answers.legacy_env) is None
            &&& outcome is Err <==> env_token(answers.primary_env) is None && env_token(
                answers.legacy_env,
            ) is None && helper_token(answers.helper_success, answers.helper_stdout) is None
            &&& outcome is Err ==> outcome == Err::<Seq<char>, ClientErrorView>(
                ClientErrorView::Auth { hostname },
            )
        }),
{
    let (asked, outcome) = token_search(hostname, answers, TokenSource::PrimaryEnv);
    let from_legacy = token_search(hostname, answers, TokenSource::LegacyEnv);
    let from_helper = token_search(hostname, answers, TokenSource::Helper);
    assert(from_helper.0 == seq![TokenSource::Helper]);
    if env_token(answers.primary_env) is Some {
        assert(asked == seq![TokenSource::PrimaryEnv]);
        assert(!asked.contains(TokenSource::Helper));
    } else if env_token(answers.legacy_env) is Some {
        assert(from_legacy.0 == seq![TokenSource::LegacyEnv]);
        assert(asked =~= seq![TokenSource::PrimaryEnv, TokenSource::LegacyEnv]);
        assert(!asked.contains(TokenSource::Helper));
    } else {
        assert(asked =~= seq![
            TokenSource::PrimaryEnv,
            TokenSource::LegacyEnv,
            TokenSource::Helper,
        ]);
        assert(asked[2] == TokenSource::Helper);
    }
}

pub open spec fn credential_view(found: Option<Credential>) -> Option<Seq<char>> {
    match found {
        Some(credential) => Some(credential@),
        None => None,
    }
}

pub open spec fn text_view(value: Option<&str>) -> Option<Seq<char>> {
    match value {
        Some(v) => Some(v@),
        None => None,
    }
}

/// What the caller has to do to ask `source` for the token of `hostname`.
pub fn token_lookup(hostname: &str, source: TokenSource) -> (r: TokenLookup)
    ensures
        r@ == lookup_for(hostname@, source),
{
    match source {
        TokenSource::PrimaryEnv => {
            let name = if is_hosted_domain(hostname) {
                "GH_TOKEN"
            } else {
                "GH_ENTERPRISE_TOKEN"
            };
            TokenLookup::ReadEnv { name: name.to_owned() }
        },
        TokenSource::LegacyEnv => {
            let name = if is_hosted_domain(hostname) {
                "GITHUB_TOKEN"
            } else {
                "GITHUB_ENTERPRISE_TOKEN"
            };
            TokenLookup::ReadEnv { name: name.to_owned() }
        },
        TokenSource::Helper => {
            let mut args: Vec<String> = Vec::new();
            args.push("auth".to_owned());
            args.push("token".to_owned());
            args.push("--secure-storage".to_owned());
            args.push("--hostname".to_owned());
            args.push(hostname.to_owned());
            assert(args.deep_view() =~= seq![
                "auth"@,
                "token"@,
                "--secure-storage"@,
                "--hostname"@,
                hostname@,
            ]);
            TokenLookup::RunHelper { program: "gh".to_owned(), args }
        },
    }
}

/// The token in the value of an environment variable; `None` stands for a
/// variable that is not set.
pub fn token_from_env(value: Option<&str>) -> (r: Option<Credential>)
    ensures
        credential_view(r) == env_token(text_view(value)),
{
    match value {
        Some(v) => {
            let rest = trim(v);
            if rest.as_str().is_empty() {
                None
            } else {
                Some(Credential { token: v.to_owned() })
            }
        },
        None => None,
    }
}

/// The token in what the credential helper wrote; `success` says whether it
/// ended with exit status zero.
pub fn token_from_gh(success: bool, stdout: &[u8]) -> (r: Option<Credential>)
    ensures
        credential_view(r) == helper_token(success, stdout@),
{
    if !success {
        return None;
    }
    let output = text_from_utf8_lossy(stdout);
    let token = trim(output.as_str());
    if token.as_str().is_empty() {
        None
    } else {
        proof {
            lemma_trimmed_idempotent(output@);
        }
        Some(Credential { token })
    }
}

/// One step of the search for the token of `hostname`: `source` was asked
/// and gave `found`.
pub fn fetch_token(hostname: &str, source: TokenSource, found: Option<Credential>) -> (r:
    TokenStep)
    ensures
        r@ == token_step(hostname@, source, credential_view(found)),
{
    match found {
        Some(credential) => TokenStep::Found(credential),
        None => match source {
            TokenSource::PrimaryEnv => TokenStep::Ask(TokenSource::LegacyEnv),
            TokenSource::LegacyEnv => TokenStep::Ask(TokenSource::Helper),
            TokenSource::Helper => TokenStep::Failed(
                ClientError::Auth { hostname: hostname.to_owned() },
            ),
        },
    }
}

} // verus!
