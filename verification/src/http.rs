use vstd::prelude::*;

use crate::domain::{
    AppError, AuthResponse, CreatePost, DomainError, GetListPosts, LoginUser, PaginatedPosts, Post,
    RegisterResponse, RegisterUser, UpdatePost, User,
};
use crate::security::{argon2_check, issued_for};
use crate::service::{edited, is_hash_failure, is_validation, login_accepted};
use crate::store::{
    duplicate_post_text, duplicate_user_id_text, email_taken, find_post, find_user_by_name, has_post, rewritten, user_fits, user_id_taken, username_taken, with_post,
    with_rewrite, without_post,
};
use crate::ids::is_v7;
use crate::text::{lowercase, starts_with};
use vstd::utf8::encode_utf8;
use crate::presentation::{AuthRejection, AuthenticatedUser};
use crate::service::{AuthService, BlogService};
use crate::text::owned;

verus! {

/// An HTTP answer: its status and its body.
#[derive(Clone, Debug)]
pub struct HttpAnswer<T> {
    pub status: u16,
    pub body: T,
}

/// The body of the protected listing: the page and the bounds that the
/// request gave.
#[derive(Clone, Debug)]
pub struct PostListBody {
    pub posts: Vec<Post>,
    pub total: i64,
    pub limit: i64,
    pub offset: i64,
}

/// The identifier of a request for the logs: the one the middleware gave it,
/// else `unknown`.
pub fn request_id(found: Option<String>) -> (r: String)
    ensures
        match found {
            Some(id) => r == id,
            None => r@ == "unknown"@,
        },
{
    match found {
        Some(id) => id,
        None => owned("unknown"),
    }
}

/// The user that the token check attached to a request; a request without
/// one is refused.
pub fn authenticated_user(found: Option<AuthenticatedUser>) -> (r: Result<AuthenticatedUser, AuthRejection>)
    ensures
        match found {
            Some(u) => r == Ok::<AuthenticatedUser, AuthRejection>(u),
            None => r matches Err(e) && e.status == 401 && e.message@
                == "missing authenticated user"@,
        },
{
    match found {
        Some(u) => Ok(u),
        None => Err(AuthRejection { status: 401, message: owned("missing authenticated user") }),
    }
}

/// The service-level outcome of a registration answer: the user and the
/// token, or the error.
pub open spec fn registration_result(r: Result<HttpAnswer<RegisterResponse>, AppError>) -> Result<(User, String), AppError> {
    match r {
        Ok(a) => Ok((a.body.user, a.body.token)),
        Err(e) => Err(e),
    }
}

/// What a registration with the username, the email and the password does to
/// the users held: the same account of outcomes that
/// `AuthService::register` gives.
pub open spec fn registration(
    before: Seq<User>,
    after: Seq<User>,
    secret: Seq<char>,
    username: String,
    email: Seq<char>,
    password: Seq<char>,
    r: Result<(User, String), AppError>,
) -> bool {
    &&& (password.len() == 0 ==> (r matches Err(e) && is_validation(e, "password is empty"@)) && after
        == before)
    &&& (encode_utf8(password).len() <= 0xFFFF_FFFF ==> !(r matches Err(e) && is_hash_failure(e)))
    &&& (r matches Err(e) && !(e matches AppError::Internal(_)) ==> after == before)
    &&& (r matches Err(AppError::Domain(DomainError::Internal(m))) ==> m@ == duplicate_user_id_text()
        && exists|id: u128| #[trigger] user_id_taken(before, id))
    &&& (r matches Err(AppError::Internal(_)) ==> exists|u: User|
        #![trigger before.push(u)]
        user_fits(before, u) && after == before.push(u))
    &&& (r matches Ok((u, t)) ==> password.len() != 0 && u.username == username && u.email@ == lowercase(
        email,
    ) && argon2_check(password, u.password_hash@) == Some(true) && starts_with(
        u.password_hash@,
        "$argon2id$"@,
    ) && user_fits(before, u) && after
        == before.push(u) && issued_for(t@, u.id, username@, secret))
    &&& (password.len() != 0 && username@.len() == 0 ==> (r matches Err(e) && (is_hash_failure(e)
        || is_validation(e, "username is empty"@))))
    &&& (password.len() != 0 && username@.len() != 0 && email.len() == 0 ==> (r matches Err(e) && (
    is_hash_failure(e) || is_validation(e, "email is empty"@))))
    &&& (password.len() != 0 && username@.len() != 0 && email.len() != 0 && username_taken(
        before,
        username@,
    ) ==> (r matches Err(e) && (is_hash_failure(e) || e matches AppError::Domain(
        DomainError::Internal(_),
    ) || (e matches AppError::Domain(DomainError::UserAlreadyExists(m)) && m@
        == "username already exists"@))))
    &&& (password.len() != 0 && username@.len() != 0 && email.len() != 0 && !username_taken(
        before,
        username@,
    ) && email_taken(before, lowercase(email)) ==> (r matches Err(e) && (is_hash_failure(e)
        || e matches AppError::Domain(DomainError::Internal(_)) || (e matches AppError::Domain(
        DomainError::UserAlreadyExists(m),
    ) && m@ == "email already exists"@))))
    &&& (password.len() != 0 && username@.len() != 0 && email.len() != 0 && !username_taken(
        before,
        username@,
    ) && !email_taken(before, lowercase(email)) ==> (r is Ok || (r matches Err(e) && (
    is_hash_failure(e) || e matches AppError::Domain(DomainError::Internal(_)) || e matches AppError::Internal(_)))))
}

/// `POST /auth/register`: registers the user as `AuthService::register`
/// does; `201 Created` with the user and its token.
pub fn register(service: &mut AuthService, payload: RegisterUser) -> (r: Result<HttpAnswer<RegisterResponse>, AppError>)
    requires
        old(service).wf(),
    ensures
        final(service).wf(),
        final(service).secret() == old(service).secret(),
        r matches Ok(a) ==> a.status == 201,
        registration(
            old(service).users(),
            final(service).users(),
            old(service).secret(),
            payload.username,
            payload.email@,
            payload.password@,
            registration_result(r),
        ),
{
    match service.register(payload.username, payload.email, payload.password) {
        Ok((user, token)) => Ok(HttpAnswer { status: 201, body: RegisterResponse { user, token } }),
        Err(e) => Err(e),
    }
}

/// `POST /auth/login`: `200 OK` with the user and a fresh token.
pub fn login(service: &AuthService, payload: LoginUser) -> (r: Result<HttpAnswer<AuthResponse>, AppError>)
    requires
        service.wf(),
    ensures
        r matches Ok(a) ==> a.status == 200 && login_accepted(
            service.users(),
            payload.username@,
            payload.password@,
        ) && a.body.user == find_user_by_name(service.users(), payload.username@).unwrap()
            && issued_for(a.body.token@, a.body.user.id, a.body.user.username@, service.secret()),
        !login_accepted(service.users(), payload.username@, payload.password@) ==> r
            matches Err(AppError::Unauthorized),
        login_accepted(service.users(), payload.username@, payload.password@) ==> (r is Ok || r
            matches Err(AppError::Internal(_))),
{
    match service.login(payload.username.as_str(), payload.password.as_str()) {
        Ok((user, token)) => Ok(HttpAnswer { status: 200, body: AuthResponse { user, token } }),
        Err(e) => Err(e),
    }
}

/// `POST /posts`: creates a post by the authenticated user as
/// `BlogService::create_post` does; `201 Created`.
pub fn create_post(service: &mut BlogService, user: &AuthenticatedUser, payload: CreatePost) -> (r: Result<HttpAnswer<Post>, AppError>)
    requires
        old(service).wf(),
        old(service).posts().len() < i64::MAX,
    ensures
        final(service).wf(),
        r matches Ok(a) ==> a.status == 201 && a.body.title == payload.title && a.body.content
            == payload.content && a.body.author_id == user.id && a.body.created_at == a.body.updated_at
            && is_v7(a.body.id) && !has_post(old(service).posts(), a.body.id) && final(service).posts() == with_post(
            old(service).posts(),
            a.body,
        ),
        r matches Err(e) ==> (e matches AppError::Domain(DomainError::Internal(m)) && m@
            == duplicate_post_text()) && final(service).posts() == old(service).posts() && exists|id: u128|
            #[trigger] has_post(old(service).posts(), id),
{
    match service.create_post(payload, user.id) {
        Ok(p) => Ok(HttpAnswer { status: 201, body: p }),
        Err(e) => Err(e),
    }
}

/// `GET /posts/{id}`: `200 OK` with the post.
pub fn get_post(service: &BlogService, post_id: u128) -> (r: Result<HttpAnswer<Post>, AppError>)
    requires
        service.wf(),
    ensures
        match crate::service::get_outcome(service.posts(), post_id) {
            Ok(p) => r matches Ok(a) && a.status == 200 && a.body == p,
            Err(e) => r == Err::<HttpAnswer<Post>, AppError>(e),
        },
{
    match service.get_post(post_id) {
        Ok(p) => Ok(HttpAnswer { status: 200, body: p }),
        Err(e) => Err(e),
    }
}

/// `GET /posts`: `200 OK` with a page of posts.
pub fn list_posts(service: &BlogService, query: GetListPosts) -> (r: Result<HttpAnswer<PaginatedPosts>, AppError>)
    requires
        service.wf(),
    ensures
        r matches Ok(a) && a.status == 200 && a.body.total == service.posts().len() && a.body.posts@
            == crate::store::page_of(
            service.posts(),
            crate::service::clamp_limit(query.limit) as int,
            crate::service::clamp_offset(query.offset) as int,
        ),
{
    match service.list_posts(query.limit, query.offset) {
        Ok(page) => Ok(HttpAnswer { status: 200, body: page }),
        Err(e) => Err(e),
    }
}

/// `GET /posts` of the protected scope: `200 OK` with the page, the total and
/// the bounds as the request gave them.
pub fn list_posts_with_bounds(service: &BlogService, query: GetListPosts) -> (r: Result<HttpAnswer<PostListBody>, AppError>)
    requires
        service.wf(),
    ensures
        r matches Ok(a) && a.status == 200 && a.body.total == service.posts().len() && a.body.limit
            == query.limit && a.body.offset == query.offset && a.body.posts@ == crate::store::page_of(
            service.posts(),
            crate::service::clamp_limit(query.limit) as int,
            crate::service::clamp_offset(query.offset) as int,
        ),
{
    match service.list_posts(query.limit, query.offset) {
        Ok(page) => Ok(
            HttpAnswer {
                status: 200,
                body: PostListBody {
                    posts: page.posts,
                    total: page.total,
                    limit: query.limit,
                    offset: query.offset,
                },
            },
        ),
        Err(e) => Err(e),
    }
}

/// `PUT /posts/{id}`: changes a post of the authenticated user as
/// `BlogService::update_post` does; `200 OK` with the post.
pub fn update_post(service: &mut BlogService, user: &AuthenticatedUser, post_id: u128, payload: UpdatePost) -> (r: Result<HttpAnswer<Post>, AppError>)
    requires
        old(service).wf(),
    ensures
        final(service).wf(),
        !has_post(old(service).posts(), post_id) ==> r == Err::<HttpAnswer<Post>, AppError>(
            AppError::Domain(DomainError::PostNotFound(post_id)),
        ) && final(service).posts() == old(service).posts(),
        has_post(old(service).posts(), post_id) && find_post(old(service).posts(), post_id).unwrap().author_id
            != user.id ==> r == Err::<HttpAnswer<Post>, AppError>(
            AppError::Domain(DomainError::Forbidden { user_id: user.id, post_id }),
        ) && final(service).posts() == old(service).posts(),
        has_post(old(service).posts(), post_id) && find_post(old(service).posts(), post_id).unwrap().author_id
            == user.id ==> (r matches Ok(a) && a.status == 200 && a.body == rewritten(
            find_post(old(service).posts(), post_id).unwrap(),
            edited(find_post(old(service).posts(), post_id).unwrap(), payload),
            a.body.updated_at,
        ) && final(service).posts() == with_rewrite(
            old(service).posts(),
            edited(find_post(old(service).posts(), post_id).unwrap(), payload),
            a.body.updated_at,
        )),
{
    match service.update_post(post_id, user.id, payload) {
        Ok(p) => Ok(HttpAnswer { status: 200, body: p }),
        Err(e) => Err(e),
    }
}

/// `DELETE /posts/{id}`: deletes a post of the authenticated user as
/// `BlogService::delete_post` does; `204 No Content`.
pub fn delete_post(service: &mut BlogService, user: &AuthenticatedUser, post_id: u128) -> (r: Result<HttpAnswer<()>, AppError>)
    requires
        old(service).wf(),
    ensures
        final(service).wf(),
        !has_post(old(service).posts(), post_id) ==> r == Err::<HttpAnswer<()>, AppError>(
            AppError::Domain(DomainError::PostNotFound(post_id)),
        ) && final(service).posts() == old(service).posts(),
        has_post(old(service).posts(), post_id) && find_post(old(service).posts(), post_id).unwrap().author_id
            != user.id ==> r == Err::<HttpAnswer<()>, AppError>(
            AppError::Domain(DomainError::Forbidden { user_id: user.id, post_id }),
        ) && final(service).posts() == old(service).posts(),
        has_post(old(service).posts(), post_id) && find_post(old(service).posts(), post_id).unwrap().author_id
            == user.id ==> (r matches Ok(a) && a.status == 204) && final(service).posts() == without_post(
            old(service).posts(),
            post_id,
        ),
{
    match service.delete_post(post_id, user.id) {
        Ok(()) => Ok(HttpAnswer { status: 204, body: () }),
        Err(e) => Err(e),
    }
}

} // verus!
