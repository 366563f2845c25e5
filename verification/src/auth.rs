//! Signup, login and the resolution of a request's `Authorization` header
//! into a verified identity.

use crate::error::ApiError;
use crate::error::Unauthorized;
use crate::models::User;
use crate::token::compact_encoding;
use crate::token::dot_count;
use crate::token::expired;
use crate::token::issue_time;
use crate::token::issue_time_of;
use crate::token::Claims;
use crate::token::TokenCodec;
use crate::utils::elapsed_seconds;
use vstd::prelude::*;

verus! {

/// The body of a signup request.
pub struct SignupBody {
    pub username: String,
    pub password: String,
    pub nickname: String,
    pub email: String,
}

/// The body of a login request.
pub struct LoginBody {
    pub username: String,
    pub password: String,
}

/// The body of the answer to a login that succeeded.
pub struct LoginResponse {
    pub token: String,
}

/// The identity that a request's bearer token establishes.
#[derive(Clone, Copy, Debug, PartialEq, Eq, Structural)]
pub struct Auth(pub Claims);

/// Decides a signup. `existing` is what the store holds under the requested
/// login: a taken login is a conflict; otherwise the record to insert carries
/// the four submitted fields and defaults elsewhere.
pub fn signup(existing: Option<&User>, body: SignupBody) -> (r: Result<User, ApiError>)
    ensures
        existing is Some ==> r == Err::<User, ApiError>(ApiError::Conflict),
        existing is None ==> (r matches Ok(user) && {
            &&& user.username == body.username
            &&& user.password == body.password
            &&& user.nickname == body.nickname
            &&& user.email == body.email
            &&& user.id == 0
            &&& user.bio is None
            &&& !user.is_manager
            &&& !user.is_withdrawn
            &&& user.field == 0
            &&& user.profile_img is None
        }),
{
    if existing.is_some() {
        return Err(ApiError::Conflict);
    }
    Ok(
        User {
            id: 0,
            username: body.username,
            password: body.password,
            nickname: body.nickname,
            email: body.email,
            bio: None,
            is_manager: false,
            is_withdrawn: false,
            field: 0,
            profile_img: None,
        },
    )
}

/// The record behind a lookup's answer.
pub open spec fn record(found: Option<&User>) -> Option<User> {
    match found {
        Some(user) => Some(*user),
        None => None,
    }
}

/// The identifier that a credential check yields: that of the credential
/// found under the login, if its stored secret equals the submitted one.
pub open spec fn authenticated(found: Option<User>, secret: Seq<char>) -> Option<i32> {
    match found {
        Some(user) => if user.password@ == secret {
            Some(user.id)
        } else {
            None
        },
        None => None,
    }
}

/// Compares a submitted secret with the credential found under the submitted
/// login. The comparison is exact equality on the stored text: secrets are
/// kept in the clear and compared in variable time, a weakness that callers
/// who need more than compatibility with existing stores must not rely on.
pub fn authenticate(found: Option<&User>, secret: &String) -> (r: Option<i32>)
    ensures
        r == authenticated(record(found), secret@),
{
    match found {
        Some(user) => if user.password == *secret {
            Some(user.id)
        } else {
            None
        },
        None => None,
    }
}

/// No two credentials share a login.
pub open spec fn unique_logins(users: Seq<User>) -> bool {
    forall|i: int, j: int|
        0 <= i < users.len() && 0 <= j < users.len() && users[i].username@ == users[j].username@
            ==> i == j
}

/// Whether `users[i]` is a credential stored under `login`.
pub open spec fn stored_under(users: Seq<User>, login: Seq<char>, i: int) -> bool {
    0 <= i < users.len() && users[i].username@ == login
}

/// What a lookup by login returns from a store that holds `users`.
pub open spec fn find_by_username(users: Seq<User>, login: Seq<char>) -> Option<User> {
    if exists|i: int| stored_under(users, login, i) {
        Some(users[choose|i: int| stored_under(users, login, i)])
    } else {
        None
    }
}

/// Over a store with unique logins, a credential check on what the lookup
/// by `login` returns yields `id` if and only if the store holds a
/// credential with exactly that login, exactly that secret, and that
/// identifier. A wrong secret and an unknown login both yield nothing.
pub proof fn lemma_authenticate_iff_stored(
    users: Seq<User>,
    login: Seq<char>,
    secret: Seq<char>,
    id: i32,
)
    requires
        unique_logins(users),
    ensures
        authenticated(find_by_username(users, login), secret) == Some(id) <==> exists|i: int|
            #[trigger] stored_under(users, login, i) && users[i].password@ == secret && users[i].id
                == id,
        !(exists|i: int| stored_under(users, login, i)) ==> authenticated(
            find_by_username(users, login),
            secret,
        ) is None,
        (forall|i: int| #[trigger]
            stored_under(users, login, i) ==> users[i].password@ != secret) ==> authenticated(
            find_by_username(users, login),
            secret,
        ) is None,
{
    if exists|i: int| stored_under(users, login, i) {
        let c = choose|i: int| stored_under(users, login, i);
        assert(stored_under(users, login, c));
        assert forall|i: int| stored_under(users, login, i) implies i == c by {}
    }
}

/// What a login answers where the token is issued at `issued_at`: bad
/// credentials are refused; accepted ones are answered with the token issued
/// for the credential's identifier, and with an internal failure exactly
/// where signing for that identifier and time yields no token.
pub open spec fn login_result(
    found: Option<User>,
    secret: Seq<char>,
    codec: &TokenCodec,
    issued_at: usize,
    r: Result<LoginResponse, ApiError>,
) -> bool {
    match authenticated(found, secret) {
        None => r == Err::<LoginResponse, ApiError>(
            ApiError::Unauthorized(Unauthorized::BadCredentials),
        ),
        Some(id) => match r {
            Ok(response) => codec.is_issued(response.token@, id, issued_at),
            Err(e) => e == ApiError::Internal && compact_encoding(
                id,
                issued_at as u64,
                codec.secret(),
            ) is None,
        },
    }
}

/// Decides a login at a given time. Bad credentials are refused; otherwise
/// the answer carries a token for the credential's identifier, issued at
/// `issued_at`.
pub fn login_at(found: Option<&User>, body: &LoginBody, codec: &TokenCodec, issued_at: usize) -> (r:
    Result<LoginResponse, ApiError>)
    ensures
        login_result(record(found), body.password@, codec, issued_at, r),
{
    match authenticate(found, &body.password) {
        None => Err(ApiError::Unauthorized(Unauthorized::BadCredentials)),
        Some(id) => match codec.issue_at(id, issued_at) {
            Ok(token) => Ok(LoginResponse { token }),
            Err(_) => Err(ApiError::Internal),
        },
    }
}

/// Decides a login at the current time: the answer is that of `login_at`
/// at the time of issue that stands for some reading of the clock.
pub fn login(found: Option<&User>, body: &LoginBody, codec: &TokenCodec) -> (r: Result<
    LoginResponse,
    ApiError,
>)
    ensures
        exists|elapsed: Option<u64>|
            login_result(
                record(found),
                body.password@,
                codec,
                #[trigger] issue_time_of(elapsed),
                r,
            ),
        authenticated(record(found), body.password@) is None ==> r == Err::<
            LoginResponse,
            ApiError,
        >(ApiError::Unauthorized(Unauthorized::BadCredentials)),
{
    let elapsed = elapsed_seconds();
    let r = login_at(found, body, codec, issue_time(elapsed));
    assert(login_result(record(found), body.password@, codec, issue_time_of(elapsed), r));
    r
}

/// Over a store with unique logins, a login whose lookup went by `login`
/// succeeds only for a credential that the store holds under exactly that
/// login and secret, and then with a token issued for that credential's
/// identifier; where the store holds such a credential, the login succeeds
/// if and only if signing for its identifier yields a token; where it holds
/// none, the login is refused as unauthorized.
pub proof fn lemma_login_iff_stored(
    users: Seq<User>,
    login: Seq<char>,
    secret: Seq<char>,
    codec: &TokenCodec,
    issued_at: usize,
    r: Result<LoginResponse, ApiError>,
)
    requires
        unique_logins(users),
        login_result(find_by_username(users, login), secret, codec, issued_at, r),
    ensures
        r matches Ok(response) ==> exists|i: int|
            #[trigger] stored_under(users, login, i) && users[i].password@ == secret
                && codec.is_issued(response.token@, users[i].id, issued_at),
        forall|i: int|
            #[trigger] stored_under(users, login, i) && users[i].password@ == secret ==> (r is Ok
                <==> compact_encoding(users[i].id, issued_at as u64, codec.secret()) is Some),
        !(exists|i: int| #[trigger]
            stored_under(users, login, i) && users[i].password@ == secret) ==> r == Err::<
            LoginResponse,
            ApiError,
        >(ApiError::Unauthorized(Unauthorized::BadCredentials)),
{
    if exists|i: int| stored_under(users, login, i) {
        let c = choose|i: int| stored_under(users, login, i);
        assert(stored_under(users, login, c));
        assert forall|i: int| stored_under(users, login, i) implies i == c by {}
    }
}

/// Index at which the last space-delimited segment of `s` begins: just
/// behind the last space, or 0 where there is none.
pub open spec fn segment_start(s: Seq<char>) -> int
    decreases s.len(),
{
    if s.len() == 0 {
        0
    } else if s.last() == ' ' {
        s.len() as int
    } else {
        segment_start(s.drop_last())
    }
}

/// The last space-delimited segment of a header value. The word before it
/// plays no part: any scheme name, or none, gives the same segment.
pub open spec fn bearer_segment(s: Seq<char>) -> Seq<char> {
    s.subrange(segment_start(s), s.len() as int)
}

/// The segment holds no space and is preceded by one unless it begins the
/// value: it is the text behind the last space.
pub proof fn lemma_segment_start(s: Seq<char>)
    ensures
        0 <= segment_start(s) <= s.len(),
        forall|j: int| segment_start(s) <= j < s.len() ==> s[j] != ' ',
        segment_start(s) > 0 ==> s[segment_start(s) - 1] == ' ',
    decreases s.len(),
{
    if s.len() > 0 && s.last() != ' ' {
        let front = s.drop_last();
        lemma_segment_start(front);
        assert forall|j: int| segment_start(s) <= j < s.len() implies s[j] != ' ' by {
            if j < front.len() {
                assert(s[j] == front[j]);
            }
        }
        if segment_start(s) > 0 {
            assert(s[segment_start(s) - 1] == front[segment_start(front) - 1]);
        }
    }
}

/// A value without a space is its own segment: a header that holds only a
/// token, with no scheme word, yields that token.
pub proof fn lemma_bare_token(token: Seq<char>)
    requires
        forall|j: int| 0 <= j < token.len() ==> token[j] != ' ',
    ensures
        segment_start(token) == 0,
        bearer_segment(token) == token,
    decreases token.len(),
{
    if token.len() > 0 {
        lemma_bare_token(token.drop_last());
    }
    assert(token.subrange(0, token.len() as int) =~= token);
}

/// Whatever stands before the last space, the segment is the token behind
/// it: the scheme word is not looked at. A value that ends in a space has
/// an empty segment.
pub proof fn lemma_scheme_is_ignored(scheme: Seq<char>, token: Seq<char>)
    requires
        forall|j: int| 0 <= j < token.len() ==> token[j] != ' ',
    ensures
        segment_start(scheme + seq![' '] + token) == scheme.len() + 1,
        bearer_segment(scheme + seq![' '] + token) == token,
    decreases token.len(),
{
    let value = scheme + seq![' '] + token;
    if token.len() == 0 {
        assert(value.last() == ' ');
    } else {
        assert(value.last() == token.last());
        assert(value.drop_last() =~= scheme + seq![' '] + token.drop_last());
        lemma_scheme_is_ignored(scheme, token.drop_last());
    }
    assert(value.subrange(scheme.len() as int + 1, value.len() as int) =~= token);
}

/// Tells whether the character at `i` is a space, reading a byte where the
/// whole value is known to be ASCII.
fn is_space_at(header: &str, ascii: bool, i: usize) -> (r: bool)
    requires
        i < header@.len(),
        ascii ==> header.is_ascii(),
    ensures
        r == (header@[i as int] == ' '),
{
    if ascii {
        header.get_ascii(i) == 32
    } else {
        header.get_char(i) == ' '
    }
}

/// Extracts the token segment of an `Authorization` header value.
pub fn bearer_token(header: &str) -> (token: &str)
    ensures
        token@ == bearer_segment(header@),
{
    let ascii = header.is_ascii();
    let n: usize = header.unicode_len();
    let mut i: usize = n;
    assert(header@.subrange(0, n as int) =~= header@);
    while i > 0 && !is_space_at(header, ascii, i - 1)
        invariant
            i <= n,
            n == header@.len(),
            ascii ==> header.is_ascii(),
            segment_start(header@) == segment_start(header@.subrange(0, i as int)),
        decreases i,
    {
        proof {
            let s = header@.subrange(0, i as int);
            assert(s.last() == header@[i - 1]);
            assert(s.drop_last() =~= header@.subrange(0, i - 1));
        }
        i = i - 1;
    }
    proof {
        let s = header@.subrange(0, i as int);
        if i > 0 {
            assert(s.last() == header@[i - 1]);
        }
        assert(segment_start(s) == i);
    }
    if ascii {
        header.substring_ascii(i, n)
    } else {
        header.substring_char(i, n)
    }
}

/// The text of a header, where the request carries one.
pub open spec fn header_text(header: Option<&str>) -> Option<Seq<char>> {
    match header {
        Some(value) => Some(value@),
        None => None,
    }
}

impl Auth {
    /// What `from_header_at` answers.
    pub open spec fn resolved(header: Option<Seq<char>>, codec: &TokenCodec, now: u64) -> Result<
        Auth,
        Unauthorized,
    > {
        match header {
            None => Err(Unauthorized::MissingHeader),
            Some(value) => if bearer_segment(value).len() == 0 {
                Err(Unauthorized::MissingHeader)
            } else {
                match codec.outcome(bearer_segment(value), now) {
                    Ok(claims) => Ok(Auth(claims)),
                    Err(_) => Err(Unauthorized::InvalidToken),
                }
            },
        }
    }

    /// Resolves the `Authorization` header of a request at time `now`.
    /// `None` stands for a request without the header, or with one that is
    /// not text.
    pub fn from_header_at(header: Option<&str>, codec: &TokenCodec, now: u64) -> (r: Result<
        Auth,
        Unauthorized,
    >)
        ensures
            r == Auth::resolved(header_text(header), codec, now),
            header matches Some(value) && bearer_segment(value@).len() > 0 && dot_count(
                bearer_segment(value@),
            ) != 2 ==> r == Err::<Auth, Unauthorized>(Unauthorized::InvalidToken),
    {
        match header {
            None => Err(Unauthorized::MissingHeader),
            Some(value) => {
                let token = bearer_token(value);
                if token.unicode_len() == 0 {
                    return Err(Unauthorized::MissingHeader);
                }
                match codec.verify_at(token, now) {
                    Ok(claims) => Ok(Auth(claims)),
                    Err(_) => Err(Unauthorized::InvalidToken),
                }
            },
        }
    }

    /// Resolves the `Authorization` header of a request at the current time.
    pub fn from_header(header: Option<&str>, codec: &TokenCodec) -> (r: Result<Auth, Unauthorized>)
        ensures
            exists|now: u64|
                r == #[trigger] Auth::resolved(header_text(header), codec, now),
            header is None ==> r == Err::<Auth, Unauthorized>(Unauthorized::MissingHeader),
            header matches Some(value) && bearer_segment(value@).len() == 0 ==> r == Err::<
                Auth,
                Unauthorized,
            >(Unauthorized::MissingHeader),
            header matches Some(value) && bearer_segment(value@).len() > 0 && dot_count(
                bearer_segment(value@),
            ) != 2 ==> r == Err::<Auth, Unauthorized>(Unauthorized::InvalidToken),
    {
        let now = match elapsed_seconds() {
            Some(s) => s,
            None => 0,
        };
        Auth::from_header_at(header, codec, now)
    }
}

/// A header of the shape `<scheme> <token>` resolves to exactly what the
/// token verifies to, whatever the scheme word is, and so does the bare
/// token; a header that ends in a space, and an absent one, are refused as
/// missing.
pub proof fn lemma_resolved_by_token(
    codec: &TokenCodec,
    scheme: Seq<char>,
    token: Seq<char>,
    now: u64,
)
    requires
        forall|j: int| 0 <= j < token.len() ==> token[j] != ' ',
    ensures
        token.len() > 0 ==> Auth::resolved(Some(scheme + seq![' '] + token), codec, now)
            == match codec.outcome(token, now) {
            Ok(claims) => Ok::<Auth, Unauthorized>(Auth(claims)),
            Err(_) => Err::<Auth, Unauthorized>(Unauthorized::InvalidToken),
        },
        token.len() > 0 ==> Auth::resolved(Some(token), codec, now) == Auth::resolved(
            Some(scheme + seq![' '] + token),
            codec,
            now,
        ),
        Auth::resolved(Some(scheme + seq![' ']), codec, now) == Err::<Auth, Unauthorized>(
            Unauthorized::MissingHeader,
        ),
        Auth::resolved(None, codec, now) == Err::<Auth, Unauthorized>(Unauthorized::MissingHeader),
{
    lemma_scheme_is_ignored(scheme, token);
    lemma_bare_token(token);
    lemma_scheme_is_ignored(scheme, Seq::<char>::empty());
    assert(scheme + seq![' '] + Seq::<char>::empty() =~= scheme + seq![' ']);
}

/// A token that this codec issued, sent in a header of the shape
/// `<scheme> <token>`, resolves to the subject and the time it was issued
/// for at every moment at which it is not expired, and is refused as an
/// invalid token at every other. `Bearer` is one such scheme word.
pub proof fn lemma_issued_token_resolves(
    codec: &TokenCodec,
    scheme: Seq<char>,
    token: Seq<char>,
    subject: i32,
    issued_at: usize,
    now: u64,
)
    requires
        codec.is_issued(token, subject, issued_at),
    ensures
        Auth::resolved(Some(scheme + seq![' '] + token), codec, now) == if expired(
            issued_at as u64,
            codec.max_age(),
            now,
        ) {
            Err::<Auth, Unauthorized>(Unauthorized::InvalidToken)
        } else {
            Ok::<Auth, Unauthorized>(Auth(Claims { sub: subject, iat: issued_at }))
        },
        Auth::resolved(Some("Bearer "@ + token), codec, now) == Auth::resolved(
            Some(scheme + seq![' '] + token),
            codec,
            now,
        ),
{
    lemma_resolved_by_token(codec, scheme, token, now);
    lemma_resolved_by_token(codec, "Bearer"@, token, now);
    reveal_strlit("Bearer ");
    reveal_strlit("Bearer");
    assert("Bearer "@ =~= "Bearer"@ + seq![' ']);
    assert(codec.outcome(token, now) == if expired(issued_at as u64, codec.max_age(), now) {
        Err::<Claims, crate::token::TokenError>(crate::token::TokenError::Expired)
    } else {
        Ok::<Claims, crate::token::TokenError>(Claims { sub: subject, iat: issued_at })
    });
}

} // verus!
