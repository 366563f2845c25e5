use contest_api::auth::Auth;
use contest_api::comments::{
    comment_created, create_comment, list_comments, CreateCommentBody, CreateCommentResponse,
};
use contest_api::contests::{
    contest_created, create_contest, get_contest, CreateContestBody, CreateContestResponse,
};
use contest_api::error::{ApiError, Unauthorized};
use contest_api::models::{Comment, CommentWithUser, Contest, Post, User};
use contest_api::posts::{
    create_post, list_posts, post_created, CreatePostBody, CreatePostResponse, Listing,
    SearchQuery,
};
use contest_api::token::Claims;
use contest_api::users::{get_user, me};
use contest_api::utils::{elapsed_seconds, now, row_key, timestamp};

fn caller(sub: i32) -> Auth {
    Auth(Claims { sub, iat: 1_700_000_000 })
}

fn comment(id: i32) -> CommentWithUser {
    CommentWithUser {
        comment_id: id,
        post_id: 1,
        user_id: 2,
        nickname: format!("user{}", id),
        content: format!("text{}", id),
        created_at: 10 + id as i64,
        edited_at: None,
        parent: None,
    }
}

#[test]
fn status_codes_follow_the_failure() {
    assert_eq!(ApiError::Unauthorized(Unauthorized::MissingHeader).status_code(), 401);
    assert_eq!(ApiError::Unauthorized(Unauthorized::InvalidToken).status_code(), 401);
    assert_eq!(ApiError::Unauthorized(Unauthorized::BadCredentials).status_code(), 401);
    assert_eq!(ApiError::Conflict.status_code(), 409);
    assert_eq!(ApiError::NotFound.status_code(), 404);
    assert_eq!(ApiError::Internal.status_code(), 500);
}

#[test]
fn unauthorized_reasons_are_machine_readable() {
    assert_eq!(Unauthorized::MissingHeader.reason(), "missing_header");
    assert_eq!(Unauthorized::InvalidToken.reason(), "invalid_token");
    assert_eq!(Unauthorized::BadCredentials.reason(), "bad_credentials");
}

#[test]
fn default_records_are_blank() {
    let user = User::default();
    assert_eq!(user.id, 0);
    assert!(user.username.is_empty() && user.password.is_empty());
    assert!(user.nickname.is_empty() && user.email.is_empty());
    assert!(user.bio.is_none() && user.profile_img.is_none());
    assert!(!user.is_manager && !user.is_withdrawn);
    let contest = Contest::default();
    assert_eq!((contest.contest_id, contest.user_id, contest.like_count), (0, 0, 0));
    assert!(contest.img.is_none());
    let post = Post::default();
    assert_eq!((post.post_id, post.max, post.ppl, post.like_count), (0, 0, 0, 0));
    assert!(post.contest_id.is_none());
    let comment = Comment::default();
    assert_eq!((comment.comment_id, comment.created_at), (0, 0));
    assert!(comment.edited_at.is_none() && comment.parent.is_none());
}

#[test]
fn contest_lookup_is_found_or_not() {
    let contest = Contest { contest_id: 3, title: String::from("cup"), ..Contest::default() };
    let found = get_contest(Some(contest)).unwrap();
    assert_eq!((found.contest_id, found.title.as_str()), (3, "cup"));
    assert_eq!(get_contest(None).err(), Some(ApiError::NotFound));
}

#[test]
fn created_contest_carries_body_and_owner() {
    let body = CreateContestBody {
        title: String::from("Spring cup"),
        field: 4,
        started_at: 100,
        ended_at: 200,
        prize: String::from("a medal"),
        link: String::from("https://example.org/cup"),
        img: Some(String::from("cup.png")),
        ratio: String::from("16:9"),
    };
    let contest = create_contest(caller(9), body);
    assert_eq!(contest.contest_id, 0);
    assert_eq!(contest.user_id, 9);
    assert_eq!(contest.title, "Spring cup");
    assert_eq!(contest.prize, "a medal");
    assert_eq!(contest.started_at, 100);
    assert_eq!(contest.ended_at, 200);
    assert_eq!(contest.link, "https://example.org/cup");
    assert_eq!(contest.field, 4);
    assert_eq!(contest.img.as_deref(), Some("cup.png"));
    assert_eq!(contest.like_count, 0);
}

#[test]
fn created_post_carries_body_owner_and_time() {
    let body = CreatePostBody {
        contest_id: Some(3),
        title: String::from("Team wanted"),
        content: String::from("Two more people"),
        max: 4,
        ppl: 2,
        desired_field: 1,
        ended_at: 900,
    };
    let post = create_post(caller(5), body, 777);
    assert_eq!(post.post_id, 0);
    assert_eq!(post.user_id, 5);
    assert_eq!(post.contest_id, Some(3));
    assert_eq!(post.title, "Team wanted");
    assert_eq!(post.content, "Two more people");
    assert_eq!((post.max, post.ppl, post.desired_field), (4, 2, 1));
    assert_eq!(post.created_at, 777);
    assert_eq!(post.ended_at, 900);
    assert_eq!(post.like_count, 0);
}

#[test]
fn created_comment_carries_body_owner_and_time() {
    let body = CreateCommentBody { content: String::from("Count me in"), parent: Some(12) };
    let comment = create_comment(8, caller(5), body, 555);
    assert_eq!(comment.comment_id, 0);
    assert_eq!(comment.post_id, 8);
    assert_eq!(comment.user_id, 5);
    assert_eq!(comment.content, "Count me in");
    assert_eq!(comment.created_at, 555);
    assert_eq!(comment.edited_at, None);
    assert_eq!(comment.parent, Some(12));
}

#[test]
fn comments_are_listed_in_reverse() {
    let listed = list_comments(vec![comment(1), comment(2), comment(3)]);
    let ids: Vec<i32> = listed.iter().map(|c| c.comment_id).collect();
    assert_eq!(ids, vec![3, 2, 1]);
    assert_eq!(listed[0].nickname, "user3");
    assert!(list_comments(Vec::new()).is_empty());
    assert_eq!(list_comments(vec![comment(7)])[0].comment_id, 7);
}

#[test]
fn listing_follows_the_query() {
    assert_eq!(list_posts(SearchQuery { contest: None }), Listing::All);
    assert_eq!(list_posts(SearchQuery { contest: Some(6) }), Listing::OfContest(6));
}

#[test]
fn creation_answers_carry_the_row_key() {
    assert_eq!(contest_created(17), CreateContestResponse { contest_id: 17 });
    assert_eq!(post_created(18), CreatePostResponse { post_id: 18 });
    assert_eq!(comment_created(19), CreateCommentResponse { comment_id: 19 });
}

#[test]
fn row_key_keeps_the_low_word() {
    assert_eq!(row_key(0), 0);
    assert_eq!(row_key(1), 1);
    assert_eq!(row_key(-1), -1);
    assert_eq!(row_key(i32::MAX as i64), i32::MAX);
    assert_eq!(row_key(i32::MIN as i64), i32::MIN);
    assert_eq!(row_key(i32::MAX as i64 + 1), i32::MIN);
    assert_eq!(row_key(i32::MIN as i64 - 1), i32::MAX);
    assert_eq!(row_key(0x1_0000_0005), 5);
    assert_eq!(row_key(i64::MAX), -1);
    assert_eq!(row_key(i64::MIN), 0);
    for rowid in [123_456_789_012i64, -123_456_789_012, 0xffff_ffff, -0xffff_ffff] {
        assert_eq!(row_key(rowid), rowid as i32);
    }
}

#[test]
fn profile_lookups_differ_in_the_missing_case() {
    let user = User { id: 4, ..User::default() };
    assert_eq!(me(Some(user.clone())).unwrap().id, 4);
    assert_eq!(get_user(Some(user)).unwrap().id, 4);
    assert_eq!(me(None).err(), Some(ApiError::Internal));
    assert_eq!(get_user(None).err(), Some(ApiError::NotFound));
}

#[test]
fn timestamp_holds_the_reading_to_range() {
    assert_eq!(timestamp(None), 0);
    assert_eq!(timestamp(Some(0)), 0);
    assert_eq!(timestamp(Some(1_700_000_000)), 1_700_000_000);
    assert_eq!(timestamp(Some(i64::MAX as u64)), i64::MAX);
    assert_eq!(timestamp(Some(i64::MAX as u64 + 1)), i64::MAX);
    assert_eq!(timestamp(Some(u64::MAX)), i64::MAX);
}

#[test]
fn clock_reads_a_plausible_time() {
    let t = now();
    assert!(t > 1_600_000_000);
    let elapsed = elapsed_seconds().unwrap();
    assert!(elapsed as i64 >= t);
    assert!(elapsed as i64 - t < 60);
}

#[test]
fn post_lookup_is_found_or_not() {
    let post = Post { post_id: 11, title: String::from("team"), ..Post::default() };
    let found = contest_api::posts::get_post(Some(post)).unwrap();
    assert_eq!((found.post_id, found.title.as_str()), (11, "team"));
    let missing = contest_api::posts::get_post(None).err();
    assert_eq!(missing, Some(ApiError::NotFound));
    assert_eq!(ApiError::NotFound.status_code(), 404);
}
