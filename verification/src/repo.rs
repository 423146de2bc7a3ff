use crate::error::{result_view, ClientError, ClientErrorView, ValidationError};
use crate::text::{char_is_whitespace, chars_of, index_of, is_whitespace};
use vstd::prelude::*;

verus! {

/// Whether `c` may stand in the owner or the name of a repository.
pub open spec fn is_repo_char(c: char) -> bool {
    c != '/' && !is_whitespace(c)
}

/// Whether `part` can be the owner or the name of a repository: not empty,
/// and free of `/` and of whitespace.
pub open spec fn is_repo_part(part: Seq<char>) -> bool {
    part.len() > 0 && forall|i: int| 0 <= i < part.len() ==> is_repo_char(#[trigger] part[i])
}

/// Whether `repo` is `owner/name` for an owner and a name that are both
/// repository parts.
pub open spec fn repo_is_valid(repo: Seq<char>) -> bool {
    exists|owner: Seq<char>, name: Seq<char>|
        #![trigger owner + "/"@ + name]
        repo == owner + "/"@ + name && is_repo_part(owner) && is_repo_part(name)
}

/// What validating `repo` gives.
pub open spec fn validated_repo(repo: Seq<char>) -> Result<(), ClientErrorView> {
    if repo_is_valid(repo) {
        Ok(())
    } else {
        Err(ClientErrorView::Validation { rule: ValidationError::Repo, text: repo })
    }
}

/// Where the single `/` of `owner/name` stands, and what surrounds it.
proof fn lemma_joined_parts(owner: Seq<char>, name: Seq<char>)
    ensures
        (owner + "/"@ + name).len() == owner.len() + 1 + name.len(),
        (owner + "/"@ + name)[owner.len() as int] == '/',
        (owner + "/"@ + name).take(owner.len() as int) == owner,
        (owner + "/"@ + name).skip(owner.len() as int + 1) == name,
{
    reveal_strlit("/");
    let repo = owner + "/"@ + name;
    assert(repo.take(owner.len() as int) =~= owner);
    assert(repo.skip(owner.len() as int + 1) =~= name);
}

/// A text with its first `/` at `slash` is a valid repository exactly when
/// what stands before and behind that `/` are repository parts.
proof fn lemma_split_at_first_slash(repo: Seq<char>, slash: int)
    requires
        0 <= slash < repo.len(),
        repo[slash] == '/',
        forall|j: int| 0 <= j < slash ==> repo[j] != '/',
    ensures
        repo_is_valid(repo) <==> is_repo_part(repo.take(slash)) && is_repo_part(
            repo.skip(slash + 1),
        ),
{
    let head = repo.take(slash);
    let tail = repo.skip(slash + 1);
    if is_repo_part(head) && is_repo_part(tail) {
        lemma_joined_parts(head, tail);
        assert(repo =~= head + "/"@ + tail) by {
            reveal_strlit("/");
        }
    }
    if repo_is_valid(repo) {
        let (owner, name) = choose|owner: Seq<char>, name: Seq<char>|
            #![trigger owner + "/"@ + name]
            repo == owner + "/"@ + name && is_repo_part(owner) && is_repo_part(name);
        lemma_joined_parts(owner, name);
        if owner.len() < slash {
            assert(repo[owner.len() as int] == '/');
        }
        if owner.len() > slash {
            assert(repo.take(owner.len() as int)[slash] == owner[slash]);
            assert(is_repo_char(owner[slash]));
        }
        assert(owner.len() == slash);
    }
}

/// A text without `/` is no valid repository.
proof fn lemma_no_slash_is_invalid(repo: Seq<char>)
    requires
        forall|j: int| 0 <= j < repo.len() ==> repo[j] != '/',
    ensures
        !repo_is_valid(repo),
{
    if repo_is_valid(repo) {
        let (owner, name) = choose|owner: Seq<char>, name: Seq<char>|
            #![trigger owner + "/"@ + name]
            repo == owner + "/"@ + name && is_repo_part(owner) && is_repo_part(name);
        lemma_joined_parts(owner, name);
        assert(repo[owner.len() as int] == '/');
    }
}

/// `owner/name` is a valid repository exactly when the owner and the name
/// are both not empty and free of `/` and of whitespace.
pub proof fn lemma_repo_valid_iff_parts(owner: Seq<char>, name: Seq<char>)
    ensures
        repo_is_valid(owner + "/"@ + name) <==> is_repo_part(owner) && is_repo_part(name),
{
    let repo = owner + "/"@ + name;
    lemma_joined_parts(owner, name);
    if repo_is_valid(repo) {
        let (o, n) = choose|o: Seq<char>, n: Seq<char>|
            #![trigger o + "/"@ + n]
            repo == o + "/"@ + n && is_repo_part(o) && is_repo_part(n);
        lemma_joined_parts(o, n);
        if o.len() < owner.len() {
            // the `/` behind `o` would stand inside `owner`, so a second `/`
            // stands inside `n`
            let k = owner.len() - o.len() - 1;
            assert(repo.skip(o.len() as int + 1)[k] == repo[owner.len() as int]);
            assert(is_repo_char(n[k]));
        }
        if o.len() > owner.len() {
            assert(repo.take(o.len() as int)[owner.len() as int] == '/');
            assert(is_repo_char(o[owner.len() as int]));
        }
        assert(o.len() == owner.len());
        assert(o == owner);
        assert(n == name);
    }
}

/// Checks that `repo` is a repository identifier of the form `owner/name`.
pub fn validate_repo(repo: &str) -> (r: Result<(), ClientError>)
    ensures
        result_view(r) == validated_repo(repo@),
{
    let chars = chars_of(repo);
    let slash = match index_of(&chars, '/') {
        Some(i) => i,
        None => {
            proof {
                lemma_no_slash_is_invalid(repo@);
            }
            return Err(ClientError::Validation { rule: ValidationError::Repo, text: repo.to_owned() });
        },
    };
    proof {
        lemma_split_at_first_slash(repo@, slash as int);
    }
    let ghost head = repo@.take(slash as int);
    let ghost tail = repo@.skip(slash + 1);
    if slash == 0 || slash + 1 == chars.len() {
        return Err(ClientError::Validation { rule: ValidationError::Repo, text: repo.to_owned() });
    }
    let mut i: usize = 0;
    while i < chars.len()
        invariant
            chars@ == repo@,
            slash < chars.len(),
            i <= chars.len(),
            head == repo@.take(slash as int),
            tail == repo@.skip(slash + 1),
            repo_is_valid(repo@) <==> is_repo_part(head) && is_repo_part(tail),
            forall|j: int| 0 <= j < i && j != slash ==> is_repo_char(#[trigger] chars[j]),
        decreases chars.len() - i,
    {
        if i != slash && (chars[i] == '/' || char_is_whitespace(chars[i])) {
            proof {
                if i < slash {
                    assert(head[i as int] == chars[i as int]);
                } else {
                    assert(tail[i - slash - 1] == chars[i as int]);
                }
            }
            return Err(ClientError::Validation { rule: ValidationError::Repo, text: repo.to_owned() });
        }
        i += 1;
    }
    proof {
        assert forall|j: int| 0 <= j < head.len() implies is_repo_char(#[trigger] head[j]) by {
            assert(head[j] == chars[j]);
        }
        assert forall|j: int| 0 <= j < tail.len() implies is_repo_char(#[trigger] tail[j]) by {
            assert(tail[j] == chars[j + slash + 1]);
        }
    }
    Ok(())
}

} // verus!
