use crate::error::{result_view, ClientError, ClientErrorView, ValidationError};
use crate::github_url::{split_url, url_parts, UrlParts, UrlPartsView};
use crate::text::{chars_of, lower, lowercase, same_text, text_of_range, to_lowercase};
use vstd::prelude::*;

verus! {

/// Whether `c` ends the host in a text that is no absolute URL.
pub open spec fn ends_host(c: char) -> bool {
    c == '/' || c == '?' || c == '#'
}

/// What stands in `raw` before the first `/`, `?` or `#`.
pub open spec fn host_part(raw: Seq<char>) -> Seq<char>
    decreases raw.len(),
{
    if raw.len() == 0 || ends_host(raw[0]) {
        Seq::empty()
    } else {
        seq![raw[0]] + host_part(raw.drop_first())
    }
}

/// The hostname that `raw` names, in small letters. `url` holds the
/// components of `raw` where `raw` is an absolute URL: the hostname is then
/// the URL's host. Otherwise it is what stands before the first `/`, `?` or
/// `#`. An absolute URL without a host and an empty host are rejected.
pub open spec fn normalized_hostname(raw: Seq<char>, url: Option<UrlPartsView>) -> Result<
    Seq<char>,
    ClientErrorView,
> {
    let host = match url {
        Some(parts) => parts.host,
        None => if host_part(raw).len() > 0 {
            Some(host_part(raw))
        } else {
            None
        },
    };
    match host {
        Some(h) => Ok(lowercase(h)),
        None => Err(ClientErrorView::Validation { rule: ValidationError::Hostname, text: raw }),
    }
}

/// Whether `hostname` is the hosted domain, in any mix of capital and small
/// letters.
pub open spec fn is_hosted(hostname: Seq<char>) -> bool {
    lowercase(hostname) == "github.com"@
}

pub open spec fn parts_view(url: Option<&UrlParts>) -> Option<UrlPartsView> {
    match url {
        Some(parts) => Some(parts@),
        None => None,
    }
}

/// Making a text small twice changes nothing more.
pub proof fn lemma_lowercase_idempotent(s: Seq<char>)
    ensures
        lowercase(lowercase(s)) == lowercase(s),
{
    assert forall|i: int| 0 <= i < s.len() implies lower(lower(s[i])) == lower(s[i]) by {}
    assert(lowercase(lowercase(s)) =~= lowercase(s));
}

/// A hostname that was normalized holds no ASCII capital letter, so
/// normalizing is needed only once.
pub proof fn lemma_normalized_hostname_is_lowercase(raw: Seq<char>, url: Option<UrlPartsView>)
    requires
        normalized_hostname(raw, url) is Ok,
    ensures
        lowercase(normalized_hostname(raw, url)->Ok_0) == normalized_hostname(raw, url)->Ok_0,
{
    match url {
        Some(parts) => lemma_lowercase_idempotent(parts.host->Some_0),
        None => lemma_lowercase_idempotent(host_part(raw)),
    }
}

/// A text that holds none of `/`, `?` and `#` is a host as a whole.
pub proof fn lemma_bare_host_is_host_part(raw: Seq<char>)
    requires
        forall|i: int| 0 <= i < raw.len() ==> !ends_host(#[trigger] raw[i]),
    ensures
        host_part(raw) == raw,
    decreases raw.len(),
{
    if raw.len() > 0 {
        let rest = raw.drop_first();
        assert forall|i: int| 0 <= i < rest.len() implies !ends_host(#[trigger] rest[i]) by {
            assert(rest[i] == raw[i + 1]);
        }
        lemma_bare_host_is_host_part(rest);
        assert(seq![raw[0]] + rest =~= raw);
    } else {
        assert(raw =~= Seq::<char>::empty());
    }
}

/// The hosted domain, given as a bare host in any mix of capital and small
/// letters, is normalized to the hosted domain in small letters.
pub proof fn lemma_hosted_domain_is_normalized(raw: Seq<char>)
    requires
        is_hosted(raw),
    ensures
        normalized_hostname(raw, None) == Ok::<Seq<char>, ClientErrorView>("github.com"@),
{
    reveal_strlit("github.com");
    let small = lowercase(raw);
    assert(raw.len() == small.len());
    assert forall|i: int| 0 <= i < raw.len() implies !ends_host(#[trigger] raw[i]) by {
        assert(small[i] == lower(raw[i]));
    }
    lemma_bare_host_is_host_part(raw);
}

/// Whether `host` is the hosted domain, in any mix of cases.
pub fn is_hosted_domain(host: &str) -> (r: bool)
    ensures
        r == is_hosted(host@),
{
    let small = to_lowercase(host);
    same_text(small.as_str(), "github.com")
}

/// Reads the hostname from `raw`, given the components of `raw` where it is
/// an absolute URL.
pub fn hostname_from_parts(raw: &str, url: Option<&UrlParts>) -> (r: Result<String, ClientError>)
    ensures
        result_view(r) == normalized_hostname(raw@, parts_view(url)),
{
    match url {
        Some(parts) => match &parts.host {
            Some(host) => Ok(to_lowercase(host.as_str())),
            None => Err(
                ClientError::Validation { rule: ValidationError::Hostname, text: raw.to_owned() },
            ),
        },
        None => {
            let chars = chars_of(raw);
            let mut end: usize = 0;
            assert(chars@.skip(0) =~= chars@);
            assert(chars@.take(0) + host_part(chars@) =~= host_part(chars@));
            while end < chars.len() && !(chars[end] == '/' || chars[end] == '?' || chars[end]
                == '#')
                invariant
                    end <= chars.len(),
                    host_part(chars@) == chars@.take(end as int) + host_part(
                        chars@.skip(end as int),
                    ),
                decreases chars.len() - end,
            {
                proof {
                    let rest = chars@.skip(end as int);
                    assert(rest.drop_first() =~= chars@.skip(end + 1));
                    assert(chars@.take(end as int) + (seq![rest[0]] + host_part(
                        rest.drop_first(),
                    )) =~= chars@.take(end + 1) + host_part(rest.drop_first()));
                }
                end += 1;
            }
            assert(host_part(chars@) =~= chars@.take(end as int));
            if end == 0 {
                Err(ClientError::Validation { rule: ValidationError::Hostname, text: raw.to_owned() })
            } else {
                let host = text_of_range(&chars, 0, end);
                Ok(to_lowercase(host.as_str()))
            }
        },
    }
}

/// Reads the hostname from what was given for it: a bare host, a host
/// followed by a path, or an absolute URL.
pub fn normalize_hostname(raw: &str) -> (r: Result<String, ClientError>)
    ensures
        result_view(r) == normalized_hostname(raw@, url_parts(raw@)),
{
    match split_url(raw) {
        Ok(parts) => hostname_from_parts(raw, Some(&parts)),
        Err(_) => hostname_from_parts(raw, None),
    }
}

} // verus!
