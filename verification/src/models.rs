//! The records the service stores. Each mirrors one table row.

use vstd::prelude::*;

verus! {

/// A credential with its profile. `username` is the unique login
/// identifier; `id` is the numeric key the store assigned.
#[derive(Clone, Debug)]
pub struct User {
    pub id: i32,
    pub username: String,
    pub password: String,
    pub nickname: String,
    pub email: String,
    pub bio: Option<String>,
    pub is_manager: bool,
    pub is_withdrawn: bool,
    pub field: i32,
    pub profile_img: Option<Vec<u8>>,
}

impl User {
    /// A user record with every field at its default: zero, empty, unset.
    pub open spec fn is_blank(self) -> bool {
        &&& self.id == 0
        &&& self.username@.len() == 0
        &&& self.password@.len() == 0
        &&& self.nickname@.len() == 0
        &&& self.email@.len() == 0
        &&& self.bio is None
        &&& !self.is_manager
        &&& !self.is_withdrawn
        &&& self.field == 0
        &&& self.profile_img is None
    }
}

impl Default for User {
    fn default() -> (user: User)
        ensures
            user.is_blank(),
    {
        User {
            id: 0,
            username: String::new(),
            password: String::new(),
            nickname: String::new(),
            email: String::new(),
            bio: None,
            is_manager: false,
            is_withdrawn: false,
            field: 0,
            profile_img: None,
        }
    }
}

/// A contest announcement.
#[derive(Clone, Debug)]
pub struct Contest {
    pub contest_id: i32,
    pub user_id: i32,
    pub title: String,
    pub prize: String,
    pub started_at: i64,
    pub ended_at: i64,
    pub link: String,
    pub field: i32,
    pub img: Option<String>,
    pub like_count: i32,
}

impl Default for Contest {
    fn default() -> (contest: Contest)
        ensures
            contest.contest_id == 0,
            contest.user_id == 0,
            contest.title@.len() == 0,
            contest.prize@.len() == 0,
            contest.started_at == 0,
            contest.ended_at == 0,
            contest.link@.len() == 0,
            contest.field == 0,
            contest.img is None,
            contest.like_count == 0,
    {
        Contest {
            contest_id: 0,
            user_id: 0,
            title: String::new(),
            prize: String::new(),
            started_at: 0,
            ended_at: 0,
            link: String::new(),
            field: 0,
            img: None,
            like_count: 0,
        }
    }
}

/// A post that looks for team members, optionally tied to a contest.
#[derive(Clone, Debug)]
pub struct Post {
    pub post_id: i32,
    pub user_id: i32,
    pub contest_id: Option<i32>,
    pub title: String,
    pub content: String,
    pub max: i32,
    pub ppl: i32,
    pub desired_field: i32,
    pub created_at: i64,
    pub ended_at: i64,
    pub like_count: i32,
}

impl Default for Post {
    fn default() -> (post: Post)
        ensures
            post.post_id == 0,
            post.user_id == 0,
            post.contest_id is None,
            post.title@.len() == 0,
            post.content@.len() == 0,
            post.max == 0,
            post.ppl == 0,
            post.desired_field == 0,
            post.created_at == 0,
            post.ended_at == 0,
            post.like_count == 0,
    {
        Post {
            post_id: 0,
            user_id: 0,
            contest_id: None,
            title: String::new(),
            content: String::new(),
            max: 0,
            ppl: 0,
            desired_field: 0,
            created_at: 0,
            ended_at: 0,
            like_count: 0,
        }
    }
}

/// A comment on a post, optionally a reply to another comment.
#[derive(Clone, Debug)]
pub struct Comment {
    pub comment_id: i32,
    pub post_id: i32,
    pub user_id: i32,
    pub content: String,
    pub created_at: i64,
    pub edited_at: Option<i64>,
    pub parent: Option<i32>,
}

impl Default for Comment {
    fn default() -> (comment: Comment)
        ensures
            comment.comment_id == 0,
            comment.post_id == 0,
            comment.user_id == 0,
            comment.content@.len() == 0,
            comment.created_at == 0,
            comment.edited_at is None,
            comment.parent is None,
    {
        Comment {
            comment_id: 0,
            post_id: 0,
            user_id: 0,
            content: String::new(),
            created_at: 0,
            edited_at: None,
            parent: None,
        }
    }
}

/// A comment joined with the nickname of its author.
#[derive(Clone, Debug, Default)]
pub struct CommentWithUser {
    pub comment_id: i32,
    pub post_id: i32,
    pub user_id: i32,
    pub nickname: String,
    pub content: String,
    pub created_at: i64,
    pub edited_at: Option<i64>,
    pub parent: Option<i32>,
}

} // verus!
