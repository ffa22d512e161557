use vstd::prelude::*;

use crate::grpc::{answers, carries_post, ListPostsReply, LoginReply, ProtoPost, ProtoUser, RegisterReply};
use crate::ids::{uuid_text, datetime_from_secs, max_datetime_secs, micros_in_range, min_datetime_secs, secs_of_micros};
use crate::presentation::{GrpcCode, GrpcStatus};
use crate::text::{join2, owned, trim_end_slashes, without_trailing_slashes};

verus! {

/// How the client reaches the server, with its address.
#[derive(Clone, Debug)]
pub enum Transport {
    Http(String),
    Grpc(String),
}

/// A user as the client reads it.
#[derive(Clone, Debug)]
pub struct User {
    pub id: String,
    pub username: String,
    pub email: String,
}

/// A post as the client reads it; times in whole seconds.
#[derive(Clone, Debug)]
pub struct Post {
    pub id: String,
    pub title: String,
    pub content: String,
    pub author_id: String,
    pub created_at: i64,
    pub updated_at: i64,
}

/// Payload of a registration.
#[derive(Clone, Debug)]
pub struct RegisterUser {
    pub username: String,
    pub email: String,
    pub password: String,
}

/// Payload of a login.
#[derive(Clone, Debug)]
pub struct LoginUser {
    pub username: String,
    pub password: String,
}

/// Payload that creates a post.
#[derive(Clone, Debug)]
pub struct CreatePost {
    pub title: String,
    pub content: String,
}

/// Payload that changes a post.
#[derive(Clone, Debug)]
pub struct UpdatePost {
    pub title: Option<String>,
    pub content: Option<String>,
}

/// Answer to a registration.
#[derive(Clone, Debug)]
pub struct RegisterResponse {
    pub user: User,
    pub token: String,
}

/// Answer to a login.
#[derive(Clone, Debug)]
pub struct AuthResponse {
    pub access_token: String,
}

/// A page of posts with the number of all posts.
#[derive(Clone, Debug)]
pub struct PaginatedPosts {
    pub posts: Vec<Post>,
    pub total: i64,
}

/// Errors of the client.
#[derive(Clone, Debug)]
pub enum BlogClientError {
    HttpError(String),
    GrpcError(GrpcStatus),
    TransportError(String),
    NotFound,
    Unauthorized,
    InvalidRequest(String),
    InvalidResponse(String),
}

/// What the client makes of a gRPC status.
pub open spec fn error_of_status(status: GrpcStatus) -> BlogClientError {
    match status.code {
        GrpcCode::Unauthenticated => BlogClientError::Unauthorized,
        GrpcCode::NotFound => BlogClientError::NotFound,
        GrpcCode::InvalidArgument => BlogClientError::InvalidRequest(status.message),
        _ => BlogClientError::GrpcError(status),
    }
}

impl BlogClientError {
    /// The client's error for a gRPC status: unauthenticated, not found and
    /// invalid argument have errors of their own, the message kept with the
    /// last; any other status is kept whole.
    pub fn from_status(status: GrpcStatus) -> (r: BlogClientError)
        ensures
            r == error_of_status(status),
            status.code == GrpcCode::Unauthenticated ==> r is Unauthorized,
            status.code == GrpcCode::NotFound ==> r is NotFound,
            status.code == GrpcCode::InvalidArgument ==> (r matches BlogClientError::InvalidRequest(m)
                && m == status.message),
            status.code != GrpcCode::Unauthenticated && status.code != GrpcCode::NotFound && status.code
                != GrpcCode::InvalidArgument ==> r == BlogClientError::GrpcError(status),
    {
        match status.code {
            GrpcCode::Unauthenticated => BlogClientError::Unauthorized,
            GrpcCode::NotFound => BlogClientError::NotFound,
            GrpcCode::InvalidArgument => BlogClientError::InvalidRequest(status.message),
            _ => BlogClientError::GrpcError(status),
        }
    }
}

/// What the client makes of the server's gRPC answer to an error: a missing
/// item is not found, a refused login or token unauthorized, an invalid
/// request keeps the server's message; any other error keeps the status.
pub proof fn law_client_reads_server_errors(e: crate::domain::AppError, s: GrpcStatus)
    requires
        s.code == crate::presentation::grpc_code_of(e),
        s.message@ == crate::presentation::grpc_text_of(e),
    ensures
        (e matches crate::domain::AppError::Domain(crate::domain::DomainError::PostNotFound(_)))
            ==> error_of_status(s) is NotFound,
        (e is Unauthorized) ==> error_of_status(s) is Unauthorized,
        match e {
            crate::domain::AppError::Domain(crate::domain::DomainError::Validation(m)) => (error_of_status(s) matches BlogClientError::InvalidRequest(t) && t@ == m@),
            _ => true,
        },
        (e is Database) ==> (error_of_status(s) matches BlogClientError::GrpcError(g) && g == s),
{
}

/// Every status but unauthenticated, not found and invalid argument reaches
/// the client whole, code and message.
pub proof fn law_other_statuses_kept_whole(s: GrpcStatus)
    requires
        s.code != GrpcCode::Unauthenticated,
        s.code != GrpcCode::NotFound,
        s.code != GrpcCode::InvalidArgument,
    ensures
        error_of_status(s) == BlogClientError::GrpcError(s),
{
}

/// A refusal to a user who is not the post's author reaches the client as the
/// server's status, permission denied with the server's message; it is not
/// reported as a missing post.
pub proof fn law_client_reads_forbidden(user_id: u128, post_id: u128, s: GrpcStatus)
    requires
        answers(
            s,
            crate::domain::AppError::Domain(crate::domain::DomainError::Forbidden { user_id, post_id }),
        ),
    ensures
        s.code == GrpcCode::PermissionDenied,
        error_of_status(s) == BlogClientError::GrpcError(s),
        !(error_of_status(s) is NotFound),
{
}

/// A client post read from a message keeps the message's identifier, title,
/// content, author and both times, each from its own field.
pub proof fn law_client_post_fields(p: Post, pp: ProtoPost)
    requires
        reads_post(p, pp),
    ensures
        p.id == pp.id,
        p.title == pp.title,
        p.content == pp.content,
        p.author_id == pp.author_id,
        p.created_at == pp.created_at,
        p.updated_at == pp.updated_at,
{
}

/// A server post sent in message form and read by the client comes out with
/// the same title and content, its identifiers in text and its two times in
/// whole seconds of their own fields.
pub proof fn law_post_reaches_client(d: crate::domain::Post, pp: ProtoPost, p: Post)
    requires
        carries_post(pp, d),
        reads_post(p, pp),
    ensures
        p.id@ == uuid_text(d.id),
        p.title == d.title,
        p.content == d.content,
        p.author_id@ == uuid_text(d.author_id),
        p.created_at == d.created_at as int / 1_000_000,
        p.updated_at == d.updated_at as int / 1_000_000,
{
}

/// What an HTTP status means to the client.
#[derive(Clone, Debug)]
pub enum StatusVerdict {
    /// The request succeeded: read the body as the answer.
    Success,
    /// The request failed with this error.
    Fail(BlogClientError),
    /// The request failed: read the body as the text of an invalid request.
    ReadBodyAsInvalidRequest,
}

/// Sorts an HTTP status: 401 and 404 are their own errors, any other status
/// outside 200–299 is an invalid request whose text is the body.
pub fn error_for_status_blog(status: u16) -> (r: StatusVerdict)
    ensures
        status == 401 ==> (r matches StatusVerdict::Fail(BlogClientError::Unauthorized)),
        status == 404 ==> (r matches StatusVerdict::Fail(BlogClientError::NotFound)),
        status != 401 && status != 404 && !(200 <= status <= 299) ==> (r
            is ReadBodyAsInvalidRequest),
        200 <= status <= 299 ==> (r is Success),
{
    if status == 401 {
        StatusVerdict::Fail(BlogClientError::Unauthorized)
    } else if status == 404 {
        StatusVerdict::Fail(BlogClientError::NotFound)
    } else if !(200 <= status && status <= 299) {
        StatusVerdict::ReadBodyAsInvalidRequest
    } else {
        StatusVerdict::Success
    }
}

/// The address of an endpoint: the base address without its trailing `/`,
/// then the path.
pub fn endpoint(base_url: &str, path: &str) -> (r: String)
    ensures
        r@ == without_trailing_slashes(base_url@) + path@,
{
    let base = trim_end_slashes(base_url);
    join2(base.as_str(), path)
}

/// The address of a post.
pub fn post_endpoint(base_url: &str, id: &str) -> (r: String)
    ensures
        r@ == without_trailing_slashes(base_url@) + "/posts/"@ + id@,
{
    let path = join2("/posts/", id);
    let r = endpoint(base_url, path.as_str());
    assert(r@ == without_trailing_slashes(base_url@) + ("/posts/"@ + id@));
    r
}

/// The value of the `authorization` entry that carries a token.
pub fn authorization_value(token: &str) -> (r: String)
    ensures
        r@ == "Bearer "@ + token@,
{
    join2("Bearer ", token)
}

/// Whether a time in seconds is one that `chrono` can hold.
pub open spec fn datetime_secs(secs: i64) -> bool {
    min_datetime_secs() <= secs <= max_datetime_secs()
}

/// Whether a client post is the message post.
pub open spec fn reads_post(p: Post, pp: ProtoPost) -> bool {
    &&& p.id == pp.id
    &&& p.title == pp.title
    &&& p.content == pp.content
    &&& p.author_id == pp.author_id
    &&& p.created_at == pp.created_at
    &&& p.updated_at == pp.updated_at
}

/// Whether an error is the report of an unreadable time.
pub open spec fn bad_time(e: BlogClientError) -> bool {
    e matches BlogClientError::InvalidResponse(m) && m@ == "Unrecognized datetime from timestamp"@
}

/// A post that the server made, with times that `chrono` holds, has in its
/// message form times that the client reads back: `Post::try_from_proto`
/// then gives the post with the same identifier, title, content, author and
/// whole seconds.
pub proof fn law_client_reads_server_post(p: crate::domain::Post, pp: ProtoPost)
    requires
        micros_in_range(p.created_at as int),
        micros_in_range(p.updated_at as int),
        carries_post(pp, p),
    ensures
        datetime_secs(pp.created_at),
        datetime_secs(pp.updated_at),
{
    assert(min_datetime_secs() <= secs_of_micros(p.created_at as int) <= max_datetime_secs());
    assert(min_datetime_secs() <= secs_of_micros(p.updated_at as int) <= max_datetime_secs());
}

/// Every post that the server reads back from its store, in message form,
/// has times that the client reads: `Post::try_from_proto` then gives the post
/// with the same identifier, title, content, author and whole seconds.
pub proof fn law_client_reads_stored_post(service: &crate::service::BlogService, id: u128, pp: ProtoPost)
    requires
        service.wf(),
        crate::service::get_outcome(service.posts(), id) matches Ok(p) && carries_post(pp, p),
    ensures
        datetime_secs(pp.created_at),
        datetime_secs(pp.updated_at),
{
    crate::service::lemma_read_post_in_range(service, id);
    let p = crate::store::find_post(service.posts(), id).unwrap();
    law_client_reads_server_post(p, pp);
}

impl Post {
    /// The post of a message; both times must be dates that `chrono` holds.
    pub fn try_from_proto(value: ProtoPost) -> (r: Result<Post, BlogClientError>)
        ensures
            r matches Ok(p) ==> p.id == value.id && p.title == value.title && p.content
                == value.content && p.author_id == value.author_id && p.created_at == value.created_at
                && p.updated_at == value.updated_at,
            datetime_secs(value.created_at) && datetime_secs(value.updated_at) ==> (r matches Ok(p)
                && reads_post(p, value)),
            !(datetime_secs(value.created_at) && datetime_secs(value.updated_at)) ==> (r matches Err(
                e,
            ) && bad_time(e)),
    {
        let created_at = match datetime_from_secs(value.created_at) {
            Some(t) => t,
            None => {
                return Err(
                    BlogClientError::InvalidResponse(owned("Unrecognized datetime from timestamp")),
                );
            },
        };
        let updated_at = match datetime_from_secs(value.updated_at) {
            Some(t) => t,
            None => {
                return Err(
                    BlogClientError::InvalidResponse(owned("Unrecognized datetime from timestamp")),
                );
            },
        };
        Ok(
            Post {
                id: value.id,
                title: value.title,
                content: value.content,
                author_id: value.author_id,
                created_at,
                updated_at,
            },
        )
    }
}

impl User {
    /// The user of a message.
    pub fn from_proto(value: ProtoUser) -> (r: User)
        ensures
            r.id == value.id && r.username == value.username && r.email == value.email,
    {
        User { id: value.id, username: value.username, email: value.email }
    }
}

/// The answer to a registration read from its message; a message without a
/// user is refused.
pub fn register_response_from_reply(reply: RegisterReply) -> (r: Result<RegisterResponse, BlogClientError>)
    ensures
        reply.user matches Some(u) ==> (r matches Ok(resp) && resp.token == reply.token
            && resp.user.id == u.id && resp.user.username == u.username && resp.user.email
            == u.email),
        reply.user is None ==> (r matches Err(BlogClientError::InvalidResponse(m)) && m@
            == "User not found"@),
{
    match reply.user {
        Some(u) => Ok(RegisterResponse { user: User::from_proto(u), token: reply.token }),
        None => Err(BlogClientError::InvalidResponse(owned("User not found"))),
    }
}

/// The answer to a login read from its message.
pub fn auth_response_from_reply(reply: LoginReply) -> (r: AuthResponse)
    ensures
        r.access_token == reply.token,
{
    AuthResponse { access_token: reply.token }
}

/// Whether every message post of a page holds two readable times.
pub open spec fn all_times_readable(posts: Seq<ProtoPost>) -> bool {
    forall|i: int|
        #![trigger posts[i]]
        0 <= i < posts.len() ==> datetime_secs(posts[i].created_at) && datetime_secs(
            posts[i].updated_at,
        )
}

/// A page read from its message; the first post with an unreadable time
/// fails it.
pub fn paginated_from_reply(reply: ListPostsReply) -> (r: Result<PaginatedPosts, BlogClientError>)
    ensures
        all_times_readable(reply.posts@) ==> (r matches Ok(page) && page.total == reply.total
            && page.posts@.len() == reply.posts@.len() && forall|i: int|
            0 <= i < reply.posts@.len() ==> reads_post(#[trigger] page.posts@[i], reply.posts@[i])),
        !all_times_readable(reply.posts@) ==> (r matches Err(e) && bad_time(e)),
{
    let mut posts: Vec<Post> = Vec::new();
    let n = reply.posts.len();
    let mut i: usize = 0;
    while i < n
        invariant
            n == reply.posts@.len(),
            i <= n,
            posts@.len() == i,
            forall|k: int| 0 <= k < i ==> reads_post(#[trigger] posts@[k], reply.posts@[k]),
            forall|k: int|
                #![trigger reply.posts@[k]]
                0 <= k < i ==> datetime_secs(reply.posts@[k].created_at) && datetime_secs(
                    reply.posts@[k].updated_at,
                ),
        decreases n - i,
    {
        let pp = reply.posts[i].duplicate();
        match Post::try_from_proto(pp) {
            Ok(p) => posts.push(p),
            Err(e) => {
                return Err(e);
            },
        }
        i = i + 1;
    }
    Ok(PaginatedPosts { posts, total: reply.total })
}

/// A session of the client: the chosen transport and the token of the last
/// login, if any.
pub struct BlogClient {
    pub transport: Transport,
    token: Option<String>,
}

impl BlogClient {
    /// The token that the session holds.
    pub closed spec fn token(&self) -> Option<String> {
        self.token
    }

    /// The transport that the session uses.
    pub closed spec fn chosen_transport(&self) -> Transport {
        self.transport
    }

    /// A session over the transport, without a token.
    pub fn new(transport: Transport) -> (r: BlogClient)
        ensures
            r.chosen_transport() == transport,
            r.token() is None,
    {
        BlogClient { transport, token: None }
    }

    /// Keeps a token for the calls that follow.
    pub fn set_token(&mut self, token: String)
        ensures
            final(self).token() == Some(token),
    {
        self.token = Some(token);
    }

    /// The token that the calls carry.
    pub fn get_token(&self) -> (r: Option<String>)
        ensures
            r == self.token(),
    {
        match &self.token {
            Some(t) => Some(t.clone()),
            None => None,
        }
    }

    /// Keeps the token of a successful login.
    pub fn login_succeeded(&mut self, response: &AuthResponse)
        ensures
            final(self).token() == Some(response.access_token),
    {
        self.set_token(response.access_token.clone());
    }
}

} // verus!
