use crate::error::{result_view, ClientError, ClientErrorView, FormatError};
use crate::github_api::{comment_views, Comment, CommentView, Fetched, FetchedView};
use vstd::prelude::*;

verus! {

/// The lines that show one comment: its address, an empty line, and its
/// body, which is empty where the comment has none. A comment without an
/// address cannot be shown.
pub open spec fn comment_text(comment: CommentView) -> Result<Seq<char>, ClientErrorView> {
    match comment.html_url {
        None => Err(ClientErrorView::Format(FormatError::MissingHtmlUrl)),
        Some(url) => Ok(
            url + "\n\n"@ + match comment.body {
                Some(body) => body,
                None => Seq::empty(),
            } + "\n"@,
        ),
    }
}

/// The lines that show the comments `list`, in order, with an empty line
/// between one comment and the next. The first comment that cannot be
/// shown makes the whole an error.
pub open spec fn comments_text(list: Seq<CommentView>) -> Result<Seq<char>, ClientErrorView>
    decreases list.len(),
{
    if list.len() == 0 {
        Ok(Seq::empty())
    } else {
        match comments_text(list.drop_last()) {
            Err(e) => Err(e),
            Ok(before) => match comment_text(list.last()) {
                Err(e) => Err(e),
                Ok(text) => Ok(
                    if list.len() == 1 {
                        text
                    } else {
                        before + "\n"@ + text
                    },
                ),
            },
        }
    }
}

/// The lines that show what was fetched.
pub open spec fn fetched_text(fetched: FetchedView) -> Result<Seq<char>, ClientErrorView> {
    match fetched {
        FetchedView::Comment(comment) => comment_text(comment),
        FetchedView::Comments(list) => comments_text(list),
    }
}

/// Where the first `k` comments cannot be shown, the whole list cannot, for
/// the same reason.
proof fn lemma_first_error_stays(list: Seq<CommentView>, k: int)
    requires
        0 <= k <= list.len(),
        comments_text(list.take(k)) is Err,
    ensures
        comments_text(list) == comments_text(list.take(k)),
    decreases list.len(),
{
    if k < list.len() {
        assert(list.drop_last().take(k) =~= list.take(k));
        lemma_first_error_stays(list.drop_last(), k);
    } else {
        assert(list.take(k) =~= list);
    }
}

/// The lines that show one comment.
pub fn format_comment(comment: &Comment) -> (r: Result<String, ClientError>)
    ensures
        result_view(r) == comment_text(comment@),
{
    let url = match &comment.html_url {
        Some(url) => url,
        None => {
            return Err(ClientError::Format(FormatError::MissingHtmlUrl));
        },
    };
    let mut out = url.clone();
    out.append("\n\n");
    match &comment.body {
        Some(body) => {
            out.append(body.as_str());
        },
        None => {
            assert(out@ + Seq::<char>::empty() =~= out@);
        },
    }
    out.append("\n");
    Ok(out)
}

/// The lines that show what was fetched: the one comment, or all of them
/// with an empty line between one and the next.
pub fn format_comments(fetched: &Fetched) -> (r: Result<String, ClientError>)
    ensures
        result_view(r) == fetched_text(fetched@),
{
    let list = match fetched {
        Fetched::Comment(comment) => {
            return format_comment(comment);
        },
        Fetched::Comments(list) => list,
    };
    let ghost views = comment_views(list@);
    let mut out = String::new();
    let mut i: usize = 0;
    assert(views.take(0) =~= Seq::empty());
    while i < list.len()
        invariant
            i <= list.len(),
            views == comment_views(list@),
            fetched_text(fetched@) == comments_text(views),
            comments_text(views.take(i as int)) == Ok::<Seq<char>, ClientErrorView>(out@),
        decreases list.len() - i,
    {
        proof {
            assert(views.take(i + 1).drop_last() =~= views.take(i as int));
            assert(views.take(i + 1).last() == list@[i as int]@);
        }
        match format_comment(&list[i]) {
            Ok(text) => {
                if i > 0 {
                    out.append("\n");
                } else {
                    assert(out@ =~= Seq::<char>::empty());
                    assert(out@ + text@ =~= text@);
                }
                out.append(text.as_str());
            },
            Err(e) => {
                proof {
                    lemma_first_error_stays(views, i + 1);
                }
                return Err(e);
            },
        }
        i += 1;
    }
    assert(views.take(i as int) =~= views);
    Ok(out)
}

} // verus!
