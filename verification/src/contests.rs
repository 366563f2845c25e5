//! Contests: what a creation request stores, and how lookups are answered.

use crate::auth::Auth;
use crate::error::ApiError;
use crate::models::Contest;
use crate::utils::row_key;
use vstd::prelude::*;

verus! {

/// The body of a request that creates a contest. `ratio` is accepted and
/// not stored.
pub struct CreateContestBody {
    pub title: String,
    pub field: i32,
    pub started_at: i64,
    pub ended_at: i64,
    pub prize: String,
    pub link: String,
    pub img: Option<String>,
    pub ratio: String,
}

/// The body of the answer to a creation that succeeded.
#[derive(Clone, Copy, Debug, PartialEq, Eq, Structural)]
pub struct CreateContestResponse {
    pub contest_id: i32,
}

/// Answers a lookup by key: the contest, or not found.
pub fn get_contest(found: Option<Contest>) -> (r: Result<Contest, ApiError>)
    ensures
        r == match found {
            Some(contest) => Ok::<Contest, ApiError>(contest),
            None => Err::<Contest, ApiError>(ApiError::NotFound),
        },
{
    match found {
        Some(contest) => Ok(contest),
        None => Err(ApiError::NotFound),
    }
}

/// The record that a creation request stores: the submitted fields, owned
/// by the authenticated user, with no likes and no key yet.
pub fn create_contest(auth: Auth, body: CreateContestBody) -> (contest: Contest)
    ensures
        contest.contest_id == 0,
        contest.user_id == auth.0.sub,
        contest.title == body.title,
        contest.prize == body.prize,
        contest.started_at == body.started_at,
        contest.ended_at == body.ended_at,
        contest.link == body.link,
        contest.field == body.field,
        contest.img == body.img,
        contest.like_count == 0,
{
    Contest {
        contest_id: 0,
        user_id: auth.0.sub,
        title: body.title,
        prize: body.prize,
        started_at: body.started_at,
        ended_at: body.ended_at,
        link: body.link,
        field: body.field,
        img: body.img,
        like_count: 0,
    }
}

/// The answer to a creation, given the row key that the store assigned.
pub fn contest_created(rowid: i64) -> (response: CreateContestResponse)
    ensures
        response.contest_id == crate::utils::low_word(rowid),
{
    CreateContestResponse { contest_id: row_key(rowid) }
}

} // verus!
