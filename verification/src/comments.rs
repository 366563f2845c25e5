//! Comments: the order in which they are listed, and what a creation
//! request stores.

use crate::auth::Auth;
use crate::models::Comment;
use crate::models::CommentWithUser;
use crate::utils::row_key;
use vstd::prelude::*;

verus! {

/// The body of a request that creates a comment.
pub struct CreateCommentBody {
    pub content: String,
    pub parent: Option<i32>,
}

/// The body of the answer to a creation that succeeded.
#[derive(Clone, Copy, Debug, PartialEq, Eq, Structural)]
pub struct CreateCommentResponse {
    pub comment_id: i32,
}

/// Orders the comments of a post for listing: the reverse of the order in
/// which the store returned them.
pub fn list_comments(comments: Vec<CommentWithUser>) -> (listed: Vec<CommentWithUser>)
    ensures
        listed@ == comments@.reverse(),
{
    let mut rest = comments;
    let mut listed: Vec<CommentWithUser> = Vec::new();
    while rest.len() > 0
        invariant
            rest@.len() + listed@.len() == comments@.len(),
            rest@ == comments@.subrange(0, rest@.len() as int),
            forall|k: int|
                0 <= k < listed@.len() ==> listed@[k] == comments@[comments@.len() - 1 - k],
        decreases rest@.len(),
    {
        match rest.pop() {
            Some(comment) => listed.push(comment),
            None => {},
        }
    }
    assert(listed@ =~= comments@.reverse());
    listed
}

/// The record that a creation request stores: the submitted text and
/// parent, on the given post, owned by the authenticated user and stamped
/// with `now`, never edited and with no key yet.
pub fn create_comment(post_id: i32, auth: Auth, body: CreateCommentBody, now: i64) -> (comment:
    Comment)
    ensures
        comment.comment_id == 0,
        comment.post_id == post_id,
        comment.user_id == auth.0.sub,
        comment.content == body.content,
        comment.created_at == now,
        comment.edited_at is None,
        comment.parent == body.parent,
{
    Comment {
        comment_id: 0,
        post_id,
        user_id: auth.0.sub,
        content: body.content,
        created_at: now,
        edited_at: None,
        parent: body.parent,
    }
}

/// The answer to a creation, given the row key that the store assigned.
pub fn comment_created(rowid: i64) -> (response: CreateCommentResponse)
    ensures
        response.comment_id == crate::utils::low_word(rowid),
{
    CreateCommentResponse { comment_id: row_key(rowid) }
}

} // verus!
