//! Posts: which listing a query asks for, and what a creation request
//! stores.

use crate::auth::Auth;
use crate::error::ApiError;
use crate::models::Post;
use crate::utils::row_key;
use vstd::prelude::*;

verus! {

/// The query string of a listing request.
#[derive(Clone, Copy, Debug, PartialEq, Eq, Structural)]
pub struct SearchQuery {
    pub contest: Option<i32>,
}

/// The listing that a query asks for.
#[derive(Clone, Copy, Debug, PartialEq, Eq, Structural)]
pub enum Listing {
    /// Every post.
    All,
    /// The posts tied to one contest.
    OfContest(i32),
}

/// The body of a request that creates a post.
pub struct CreatePostBody {
    pub contest_id: Option<i32>,
    pub title: String,
    pub content: String,
    pub max: i32,
    pub ppl: i32,
    pub desired_field: i32,
    pub ended_at: i64,
}

/// The body of the answer to a creation that succeeded.
#[derive(Clone, Copy, Debug, PartialEq, Eq, Structural)]
pub struct CreatePostResponse {
    pub post_id: i32,
}

/// Chooses the listing for a query: by contest where one is named, else
/// everything.
pub fn list_posts(query: SearchQuery) -> (listing: Listing)
    ensures
        listing == match query.contest {
            Some(contest) => Listing::OfContest(contest),
            None => Listing::All,
        },
{
    match query.contest {
        Some(contest) => Listing::OfContest(contest),
        None => Listing::All,
    }
}

/// Answers a lookup by key: the post, or not found.
pub fn get_post(found: Option<Post>) -> (r: Result<Post, ApiError>)
    ensures
        r == match found {
            Some(post) => Ok::<Post, ApiError>(post),
            None => Err::<Post, ApiError>(ApiError::NotFound),
        },
{
    match found {
        Some(post) => Ok(post),
        None => Err(ApiError::NotFound),
    }
}

/// The record that a creation request stores: the submitted fields, owned
/// by the authenticated user and stamped with `now`, with no likes and no
/// key yet.
pub fn create_post(auth: Auth, body: CreatePostBody, now: i64) -> (post: Post)
    ensures
        post.post_id == 0,
        post.user_id == auth.0.sub,
        post.contest_id == body.contest_id,
        post.title == body.title,
        post.content == body.content,
        post.max == body.max,
        post.ppl == body.ppl,
        post.desired_field == body.desired_field,
        post.created_at == now,
        post.ended_at == body.ended_at,
        post.like_count == 0,
{
    Post {
        post_id: 0,
        user_id: auth.0.sub,
        contest_id: body.contest_id,
        title: body.title,
        content: body.content,
        max: body.max,
        ppl: body.ppl,
        desired_field: body.desired_field,
        created_at: now,
        ended_at: body.ended_at,
        like_count: 0,
    }
}

/// The answer to a creation, given the row key that the store assigned.
pub fn post_created(rowid: i64) -> (response: CreatePostResponse)
    ensures
        response.post_id == crate::utils::low_word(rowid),
{
    CreatePostResponse { post_id: row_key(rowid) }
}

} // verus!
