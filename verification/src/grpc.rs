use vstd::prelude::*;

use crate::domain::{AppError, CreatePost, DomainError, PaginatedPosts, Post, UpdatePost, User};
use crate::ids::{is_v7, micros_to_secs, parse_uuid, parse_view, secs_of_micros, uuid_parse_result, uuid_text, uuid_to_string};
use crate::presentation::{
    bearer_user_id, grpc_code_of, grpc_text_of, map_app_error, names_issued_id, GrpcCode, GrpcStatus,
};
use crate::security::{hs256_signed, issued_for};
use crate::service::{clamp_limit, clamp_offset, edited, get_outcome, login_accepted, AuthService, BlogService};
use crate::store::{duplicate_post_text, find_post, has_post, page_of, rewritten, user_fits, with_post, with_rewrite, without_post, find_user_by_name};
use crate::text::starts_with;
use crate::http::registration;
use crate::text::lowercase;

verus! {

/// A user as the gRPC messages carry it.
#[derive(Clone, Debug)]
pub struct ProtoUser {
    pub id: String,
    pub username: String,
    pub email: String,
}

/// A post as the gRPC messages carry it; times in whole seconds.
#[derive(Clone, Debug)]
pub struct ProtoPost {
    pub id: String,
    pub title: String,
    pub content: String,
    pub author_id: String,
    pub created_at: i64,
    pub updated_at: i64,
}

#[derive(Clone, Debug)]
pub struct RegisterRequest {
    pub username: String,
    pub email: String,
    pub password: String,
}

#[derive(Clone, Debug)]
pub struct RegisterReply {
    pub token: String,
    pub user: Option<ProtoUser>,
}

#[derive(Clone, Debug)]
pub struct LoginRequest {
    pub username: String,
    pub password: String,
}

#[derive(Clone, Debug)]
pub struct LoginReply {
    pub token: String,
    pub user: Option<ProtoUser>,
}

#[derive(Clone, Debug)]
pub struct CreatePostRequest {
    pub title: String,
    pub content: String,
}

#[derive(Clone, Debug)]
pub struct GetPostRequest {
    pub id: String,
}

#[derive(Clone, Debug)]
pub struct UpdatePostRequest {
    pub id: String,
    pub title: Option<String>,
    pub content: Option<String>,
}

#[derive(Clone, Debug)]
pub struct DeletePostRequest {
    pub id: String,
}

#[derive(Clone, Debug)]
pub struct DeletePostReply {
    pub success: bool,
}

#[derive(Clone, Debug)]
pub struct ListPostsRequest {
    pub limit: i64,
    pub offset: i64,
}

#[derive(Clone, Debug)]
pub struct ListPostsReply {
    pub posts: Vec<ProtoPost>,
    pub total: i64,
    pub limit: i64,
    pub offset: i64,
}

impl ProtoPost {
    /// A copy of the message post, field for field.
    pub fn duplicate(&self) -> (r: ProtoPost)
        ensures
            r == *self,
    {
        ProtoPost {
            id: self.id.clone(),
            title: self.title.clone(),
            content: self.content.clone(),
            author_id: self.author_id.clone(),
            created_at: self.created_at,
            updated_at: self.updated_at,
        }
    }
}

/// Whether a message user is the user: identifier in text, name and email.
pub open spec fn carries_user(pu: ProtoUser, u: User) -> bool {
    pu.id@ == uuid_text(u.id) && pu.username == u.username && pu.email == u.email
}

/// Whether a message post is the post: identifiers in text, times in seconds.
pub open spec fn carries_post(pp: ProtoPost, p: Post) -> bool {
    &&& pp.id@ == uuid_text(p.id)
    &&& pp.title == p.title
    &&& pp.content == p.content
    &&& pp.author_id@ == uuid_text(p.author_id)
    &&& pp.created_at == secs_of_micros(p.created_at as int)
    &&& pp.updated_at == secs_of_micros(p.updated_at as int)
}

/// Whether a status answers an application error.
pub open spec fn answers(s: GrpcStatus, e: AppError) -> bool {
    s.code == grpc_code_of(e) && s.message@ == grpc_text_of(e)
}

/// Whether a status answers an identifier that does not parse.
pub open spec fn answers_bad_id(s: GrpcStatus, text: Seq<char>) -> bool {
    s.code == GrpcCode::InvalidArgument && uuid_parse_result(text) == Err::<u128, Seq<char>>(
        s.message@,
    )
}

/// Whether a reply carries the outcome of a post operation.
pub open spec fn post_reply_carries(r: Result<ProtoPost, GrpcStatus>, outcome: Result<Post, AppError>) -> bool {
    match outcome {
        Ok(p) => r matches Ok(pp) && carries_post(pp, p),
        Err(e) => r matches Err(s) && answers(s, e),
    }
}

/// A user in its message form.
pub fn proto_user(u: User) -> (r: ProtoUser)
    ensures
        carries_user(r, u),
        r.id@ == uuid_text(u.id),
        r.username == u.username,
        r.email == u.email,
{
    ProtoUser { id: uuid_to_string(u.id), username: u.username, email: u.email }
}

/// A post in its message form.
pub fn proto_post(p: Post) -> (r: ProtoPost)
    ensures
        carries_post(r, p),
        r.id@ == uuid_text(p.id),
        r.title == p.title,
        r.content == p.content,
        r.author_id@ == uuid_text(p.author_id),
        r.created_at == p.created_at as int / 1_000_000,
        r.updated_at == p.updated_at as int / 1_000_000,
{
    ProtoPost {
        id: uuid_to_string(p.id),
        title: p.title,
        content: p.content,
        author_id: uuid_to_string(p.author_id),
        created_at: micros_to_secs(p.created_at),
        updated_at: micros_to_secs(p.updated_at),
    }
}

/// The reply to a post operation.
pub fn post_reply(outcome: Result<Post, AppError>) -> (r: Result<ProtoPost, GrpcStatus>)
    ensures
        post_reply_carries(r, outcome),
{
    match outcome {
        Ok(p) => Ok(proto_post(p)),
        Err(e) => Err(map_app_error(e)),
    }
}

/// Whether a reply carries the outcome of a registration or a login: the
/// user and the token, or the answer to the error.
pub open spec fn register_reply_carries(r: Result<RegisterReply, GrpcStatus>, o: Result<(User, String), AppError>) -> bool {
    match o {
        Ok((u, t)) => r matches Ok(rep) && rep.token == t && (rep.user matches Some(pu) && carries_user(pu, u)),
        Err(e) => r matches Err(s) && answers(s, e),
    }
}

/// The reply to a registration.
pub fn register_reply(outcome: Result<(User, String), AppError>) -> (r: Result<RegisterReply, GrpcStatus>)
    ensures
        outcome matches Ok((u, t)) ==> (r matches Ok(rep) && rep.token == t && (rep.user matches Some(
            pu,
        ) && carries_user(pu, u))),
        outcome matches Err(e) ==> (r matches Err(s) && answers(s, e)),
{
    match outcome {
        Ok((user, token)) => Ok(RegisterReply { token, user: Some(proto_user(user)) }),
        Err(e) => Err(map_app_error(e)),
    }
}

/// The reply to a login.
pub fn login_reply(outcome: Result<(User, String), AppError>) -> (r: Result<LoginReply, GrpcStatus>)
    ensures
        outcome matches Ok((u, t)) ==> (r matches Ok(rep) && rep.token == t && (rep.user matches Some(
            pu,
        ) && carries_user(pu, u))),
        outcome matches Err(e) ==> (r matches Err(s) && answers(s, e)),
{
    match outcome {
        Ok((user, token)) => Ok(LoginReply { token, user: Some(proto_user(user)) }),
        Err(e) => Err(map_app_error(e)),
    }
}

/// The reply to a deletion.
pub fn delete_reply(outcome: Result<(), AppError>) -> (r: Result<DeletePostReply, GrpcStatus>)
    ensures
        outcome is Ok ==> (r matches Ok(rep) && rep.success),
        outcome matches Err(e) ==> (r matches Err(s) && answers(s, e)),
{
    match outcome {
        Ok(()) => Ok(DeletePostReply { success: true }),
        Err(e) => Err(map_app_error(e)),
    }
}

/// The reply to a listing: the posts in message form, the total, and the
/// limit and offset as the request gave them.
pub fn list_reply(outcome: Result<PaginatedPosts, AppError>, limit: i64, offset: i64) -> (r: Result<ListPostsReply, GrpcStatus>)
    ensures
        outcome matches Ok(page) ==> (r matches Ok(rep) && rep.total == page.total && rep.limit
            == limit && rep.offset == offset && rep.posts@.len() == page.posts@.len() && forall|i: int|
            0 <= i < page.posts@.len() ==> carries_post(#[trigger] rep.posts@[i], page.posts@[i])),
        outcome matches Err(e) ==> (r matches Err(s) && answers(s, e)),
{
    match outcome {
        Ok(page) => {
            let mut posts: Vec<ProtoPost> = Vec::new();
            let n = page.posts.len();
            let mut i: usize = 0;
            while i < n
                invariant
                    n == page.posts@.len(),
                    i <= n,
                    posts@.len() == i,
                    forall|k: int| 0 <= k < i ==> carries_post(#[trigger] posts@[k], page.posts@[k]),
                decreases n - i,
            {
                let p = page.posts[i].duplicate();
                posts.push(proto_post(p));
                i = i + 1;
            }
            Ok(ListPostsReply { posts, total: page.total, limit, offset })
        },
        Err(e) => Err(map_app_error(e)),
    }
}

/// Whether the credentials of a call were refused as a missing or malformed
/// `authorization` entry is refused.
pub open spec fn refuses_credentials(authorization: Option<Result<String, String>>, s: GrpcStatus) -> bool {
    &&& authorization is None ==> s.code == GrpcCode::Unauthenticated && s.message@
        == "Missing authorization header"@
    &&& match authorization {
        Some(Ok(h)) => !starts_with(h@, "Bearer "@) ==> s.code == GrpcCode::Unauthenticated
            && s.message@ == "Invalid authorization token"@,
        Some(Err(e)) => s.code == GrpcCode::Unauthenticated && s.message@ == e@,
        None => true,
    }
}

/// Whether the credentials of a call are refused before anything else is
/// looked at: no `authorization` entry, an unreadable one, one without the
/// `Bearer ` prefix, or a token that fails the signature check with the
/// secret.
pub open spec fn credentials_refused(authorization: Option<Result<String, String>>, secret: Seq<char>) -> bool {
    match authorization {
        None => true,
        Some(Err(_)) => true,
        Some(Ok(h)) => !starts_with(h@, "Bearer "@) || !hs256_signed(h@.skip(7), secret),
    }
}

/// Whether the `authorization` entry holds a bearer token issued for the user.
pub open spec fn bears_token_of(authorization: Option<Result<String, String>>, secret: Seq<char>, user_id: u128) -> bool {
    authorization matches Some(Ok(h)) && starts_with(h@, "Bearer "@) && names_issued_id(
        h@.skip(7),
        secret,
        user_id,
    )
}

/// Whether a registration reply reports a user added to the store with a
/// token issued for it.
pub open spec fn registered(before: Seq<User>, after: Seq<User>, rep: RegisterReply, req: RegisterRequest, secret: Seq<char>) -> bool {
    exists|u: User|
        #![trigger before.push(u)]
        user_fits(before, u) && after == before.push(u) && u.username == req.username && (
        rep.user matches Some(pu) && carries_user(pu, u)) && issued_for(
            rep.token@,
            u.id,
            req.username@,
            secret,
        )
}

/// The blog's gRPC service: the calls of the protocol over the two services.
pub struct BlogServiceImpl {
    auth_serv: AuthService,
    blog_serv: BlogService,
}

impl BlogServiceImpl {
    pub closed spec fn auth(&self) -> AuthService {
        self.auth_serv
    }

    pub closed spec fn blog(&self) -> BlogService {
        self.blog_serv
    }

    /// Both services keep their invariants.
    pub open spec fn wf(&self) -> bool {
        self.auth().wf() && self.blog().wf()
    }

    /// The gRPC service over the two services.
    pub fn new(auth_serv: AuthService, blog_serv: BlogService) -> (r: BlogServiceImpl)
        requires
            auth_serv.wf(),
            blog_serv.wf(),
        ensures
            r.wf(),
            r.auth() == auth_serv,
            r.blog() == blog_serv,
    {
        BlogServiceImpl { auth_serv, blog_serv }
    }

    /// Registers a user.
    pub fn register(&mut self, req: RegisterRequest) -> (r: Result<RegisterReply, GrpcStatus>)
        requires
            old(self).wf(),
        ensures
            final(self).wf(),
            final(self).blog() == old(self).blog(),
            final(self).auth().secret() == old(self).auth().secret(),
            req.password@.len() == 0 ==> (r matches Err(s) && s.code == GrpcCode::InvalidArgument
                && s.message@ == "password is empty"@) && final(self).auth().users() == old(self).auth().users(),
            r matches Ok(rep) ==> registered(
                old(self).auth().users(),
                final(self).auth().users(),
                rep,
                req,
                old(self).auth().secret(),
            ),
            exists|o: Result<(User, String), AppError>|
                #![trigger register_reply_carries(r, o)]
                registration(
                    old(self).auth().users(),
                    final(self).auth().users(),
                    old(self).auth().secret(),
                    req.username,
                    req.email@,
                    req.password@,
                    o,
                ) && register_reply_carries(r, o),
    {
        let ghost rq = req;
        let outcome = self.auth_serv.register(req.username, req.email, req.password);
        proof {
            if outcome is Ok {
                let (u, t) = outcome->Ok_0;
                assert(user_fits(old(self).auth().users(), u));
            }
        }
        let r = register_reply(outcome);
        proof {
            assert(registration(
                old(self).auth().users(),
                self.auth().users(),
                old(self).auth().secret(),
                rq.username,
                rq.email@,
                rq.password@,
                outcome,
            ));
            assert(register_reply_carries(r, outcome));
        }
        r
    }

    /// Logs a user in.
    pub fn login(&self, req: LoginRequest) -> (r: Result<LoginReply, GrpcStatus>)
        requires
            self.wf(),
        ensures
            !login_accepted(self.auth().users(), req.username@, req.password@) ==> (r matches Err(s)
                && s.code == GrpcCode::Unauthenticated && s.message@ == "Authentication required"@),
            login_accepted(self.auth().users(), req.username@, req.password@) ==> (r matches Ok(rep)
                && (rep.user matches Some(pu) && carries_user(
                pu,
                find_user_by_name(self.auth().users(), req.username@).unwrap(),
            )) && issued_for(
                rep.token@,
                find_user_by_name(self.auth().users(), req.username@).unwrap().id,
                find_user_by_name(self.auth().users(), req.username@).unwrap().username@,
                self.auth().secret(),
            )) || (r matches Err(s) && s.code == GrpcCode::Internal),
    {
        let outcome = self.auth_serv.login(req.username.as_str(), req.password.as_str());
        login_reply(outcome)
    }

    /// Creates a post by the given author, as `BlogService::create_post`
    /// does, and answers with it in message form.
    pub fn create_post_as(&mut self, author_id: u128, req: CreatePostRequest) -> (r: Result<ProtoPost, GrpcStatus>)
        requires
            old(self).wf(),
            old(self).blog().posts().len() < i64::MAX,
        ensures
            final(self).wf(),
            final(self).auth() == old(self).auth(),
            r matches Ok(pp) ==> exists|p: Post|
                #![trigger with_post(old(self).blog().posts(), p)]
                carries_post(pp, p) && p.title == req.title && p.content == req.content && p.author_id
                    == author_id && p.created_at == p.updated_at && is_v7(p.id) && !has_post(old(self).blog().posts(), p.id)
                    && final(self).blog().posts() == with_post(old(self).blog().posts(), p),
            r matches Err(s) ==> s.code == GrpcCode::Internal && s.message@ == duplicate_post_text()
                && final(self).blog().posts() == old(self).blog().posts() && exists|id: u128|
                #[trigger] has_post(old(self).blog().posts(), id),
    {
        let ghost before = self.blog().posts();
        let outcome = self.blog_serv.create_post(CreatePost { title: req.title, content: req.content }, author_id);
        proof {
            if outcome is Ok {
                let p = outcome->Ok_0;
                assert(with_post(before, p) == self.blog().posts());
            }
        }
        post_reply(outcome)
    }

    /// Creates a post by the user that the bearer token names.
    pub fn create_post(&mut self, authorization: Option<Result<String, String>>, req: CreatePostRequest) -> (r: Result<ProtoPost, GrpcStatus>)
        requires
            old(self).wf(),
            old(self).blog().posts().len() < i64::MAX,
        ensures
            final(self).wf(),
            final(self).auth() == old(self).auth(),
            credentials_refused(authorization, old(self).auth().secret()) ==> (r matches Err(s) && s.code
                == GrpcCode::Unauthenticated && final(self).blog().posts() == old(self).blog().posts()),
            r matches Err(s) ==> final(self).blog().posts() == old(self).blog().posts()
                && refuses_credentials(authorization, s),
            r matches Ok(pp) ==> exists|p: Post|
                #![trigger with_post(old(self).blog().posts(), p)]
                carries_post(pp, p) && p.title == req.title && p.content == req.content
                    && p.created_at == p.updated_at && bears_token_of(authorization, old(self).auth().secret(), p.author_id)
                    && !has_post(old(self).blog().posts(), p.id) && final(self).blog().posts()
                    == with_post(old(self).blog().posts(), p),
    {
        let ghost credentials = authorization;
        let ghost secret = self.auth().secret();
        let ghost before = self.blog().posts();
        let author_id = match bearer_user_id(self.auth_serv.jwt_service(), authorization) {
            Ok(id) => id,
            Err(s) => {
                return Err(s);
            },
        };
        assert(bears_token_of(credentials, secret, author_id));
        self.create_post_as(author_id, req)
    }

    /// Reads a post.
    pub fn get_post(&self, req: GetPostRequest) -> (r: Result<ProtoPost, GrpcStatus>)
        requires
            self.wf(),
        ensures
            uuid_parse_result(req.id@) is Err ==> (r matches Err(s) && answers_bad_id(s, req.id@)),
            uuid_parse_result(req.id@) matches Ok(id) ==> post_reply_carries(
                r,
                get_outcome(self.blog().posts(), id),
            ),
    {
        let post_id = match parse_uuid(req.id.as_str()) {
            Ok(id) => id,
            Err(e) => {
                return Err(GrpcStatus { code: GrpcCode::InvalidArgument, message: e });
            },
        };
        post_reply(self.blog_serv.get_post(post_id))
    }

    /// Changes a post for the given user, as `BlogService::update_post` does:
    /// an identifier that does not parse is an invalid argument, a missing
    /// post is not found, a post of another user is refused.
    pub fn update_post_as(&mut self, user_id: u128, req: UpdatePostRequest) -> (r: Result<ProtoPost, GrpcStatus>)
        requires
            old(self).wf(),
        ensures
            final(self).wf(),
            final(self).auth() == old(self).auth(),
            match uuid_parse_result(req.id@) {
                Err(_) => r matches Err(s) && answers_bad_id(s, req.id@) && final(self).blog().posts()
                    == old(self).blog().posts(),
                Ok(post_id) => if !has_post(old(self).blog().posts(), post_id) {
                    r matches Err(s) && answers(s, AppError::Domain(DomainError::PostNotFound(post_id)))
                        && final(self).blog().posts() == old(self).blog().posts()
                } else if find_post(old(self).blog().posts(), post_id).unwrap().author_id != user_id {
                    r matches Err(s) && answers(
                        s,
                        AppError::Domain(DomainError::Forbidden { user_id, post_id }),
                    ) && final(self).blog().posts() == old(self).blog().posts()
                } else {
                    r matches Ok(pp) && exists|stamp: i64|
                        #![trigger rewrite_witness(old(self).blog().posts(), final(self).blog().posts(), pp, post_id, req, stamp)]
                        rewrite_witness(
                            old(self).blog().posts(),
                            final(self).blog().posts(),
                            pp,
                            post_id,
                            req,
                            stamp,
                        )
                },
            },
    {
        let ghost before = self.blog().posts();
        let ghost rq = req;
        let parsed = parse_uuid(req.id.as_str());
        let post_id = match parsed {
            Ok(id) => id,
            Err(e) => {
                return Err(GrpcStatus { code: GrpcCode::InvalidArgument, message: e });
            },
        };
        assert(uuid_parse_result(rq.id@) == Ok::<u128, Seq<char>>(post_id));
        let update = UpdatePost { title: req.title, content: req.content };
        let ghost upd = update;
        let outcome = self.blog_serv.update_post(post_id, user_id, update);
        let r = post_reply(outcome);
        proof {
            if has_post(before, post_id) {
                let stored = find_post(before, post_id).unwrap();
                assert(edited_request(stored, rq) == edited(stored, upd));
                if stored.author_id == user_id {
                    let u = outcome->Ok_0;
                    assert(rewrite_witness(before, self.blog().posts(), r->Ok_0, post_id, rq, u.updated_at));
                }
            }
        }
        r
    }

    /// Changes a post of the user that the bearer token names.
    pub fn update_post(&mut self, authorization: Option<Result<String, String>>, req: UpdatePostRequest) -> (r: Result<ProtoPost, GrpcStatus>)
        requires
            old(self).wf(),
        ensures
            final(self).wf(),
            final(self).auth() == old(self).auth(),
            credentials_refused(authorization, old(self).auth().secret()) ==> (r matches Err(s) && s.code
                == GrpcCode::Unauthenticated && final(self).blog().posts() == old(self).blog().posts()),
            r matches Err(s) ==> final(self).blog().posts() == old(self).blog().posts()
                && refuses_credentials(authorization, s),
            r matches Err(s) ==> missing_or_forbidden(
                s,
                old(self).blog().posts(),
                authorization,
                old(self).auth().secret(),
                req.id@,
            ),
            r matches Ok(pp) ==> updated_by_bearer(
                old(self).blog().posts(),
                final(self).blog().posts(),
                pp,
                authorization,
                old(self).auth().secret(),
                req,
            ),
    {
        let ghost credentials = authorization;
        let ghost before = self.blog().posts();
        let ghost secret = self.auth().secret();
        let ghost rq = req;
        let user_id = match bearer_user_id(self.auth_serv.jwt_service(), authorization) {
            Ok(id) => id,
            Err(s) => {
                return Err(s);
            },
        };
        assert(bears_token_of(credentials, secret, user_id));
        let r = self.update_post_as(user_id, req);
        proof {
            if let Ok(post_id) = uuid_parse_result(rq.id@) {
                if has_post(before, post_id) && find_post(before, post_id).unwrap().author_id != user_id {
                    assert(forbidden_to_bearer(before, credentials, secret, rq.id@));
                }
                if r is Ok {
                    let pp = r->Ok_0;
                    let stamp = choose|stamp: i64| #[trigger] rewrite_witness(before, self.blog().posts(), pp, post_id, rq, stamp);
                    assert(rewrite_witness(before, self.blog().posts(), pp, post_id, rq, stamp));
                }
            }
        }
        r
    }

    /// Deletes a post for the given user, as `BlogService::delete_post`
    /// does: an identifier that does not parse is an invalid argument, a
    /// missing post is not found, a post of another user is refused.
    pub fn delete_post_as(&mut self, user_id: u128, req: DeletePostRequest) -> (r: Result<DeletePostReply, GrpcStatus>)
        requires
            old(self).wf(),
        ensures
            final(self).wf(),
            final(self).auth() == old(self).auth(),
            match uuid_parse_result(req.id@) {
                Err(_) => r matches Err(s) && answers_bad_id(s, req.id@) && final(self).blog().posts()
                    == old(self).blog().posts(),
                Ok(post_id) => if !has_post(old(self).blog().posts(), post_id) {
                    r matches Err(s) && answers(s, AppError::Domain(DomainError::PostNotFound(post_id)))
                        && final(self).blog().posts() == old(self).blog().posts()
                } else if find_post(old(self).blog().posts(), post_id).unwrap().author_id != user_id {
                    r matches Err(s) && answers(
                        s,
                        AppError::Domain(DomainError::Forbidden { user_id, post_id }),
                    ) && final(self).blog().posts() == old(self).blog().posts()
                } else {
                    r matches Ok(rep) && rep.success && final(self).blog().posts() == without_post(
                        old(self).blog().posts(),
                        post_id,
                    )
                },
            },
    {
        let parsed = parse_uuid(req.id.as_str());
        let post_id = match parsed {
            Ok(id) => id,
            Err(e) => {
                return Err(GrpcStatus { code: GrpcCode::InvalidArgument, message: e });
            },
        };
        let outcome = self.blog_serv.delete_post(post_id, user_id);
        delete_reply(outcome)
    }

    /// Deletes a post of the user that the bearer token names.
    pub fn delete_post(&mut self, authorization: Option<Result<String, String>>, req: DeletePostRequest) -> (r: Result<DeletePostReply, GrpcStatus>)
        requires
            old(self).wf(),
        ensures
            final(self).wf(),
            final(self).auth() == old(self).auth(),
            credentials_refused(authorization, old(self).auth().secret()) ==> (r matches Err(s) && s.code
                == GrpcCode::Unauthenticated && final(self).blog().posts() == old(self).blog().posts()),
            r matches Err(s) ==> final(self).blog().posts() == old(self).blog().posts()
                && refuses_credentials(authorization, s),
            r matches Err(s) ==> missing_or_forbidden(
                s,
                old(self).blog().posts(),
                authorization,
                old(self).auth().secret(),
                req.id@,
            ),
            r matches Ok(rep) ==> rep.success && deleted_by_bearer(
                old(self).blog().posts(),
                final(self).blog().posts(),
                authorization,
                old(self).auth().secret(),
                req.id@,
            ),
    {
        let ghost credentials = authorization;
        let ghost before = self.blog().posts();
        let ghost secret = self.auth().secret();
        let ghost rq = req;
        let user_id = match bearer_user_id(self.auth_serv.jwt_service(), authorization) {
            Ok(id) => id,
            Err(s) => {
                return Err(s);
            },
        };
        assert(bears_token_of(credentials, secret, user_id));
        let r = self.delete_post_as(user_id, req);
        proof {
            if let Ok(post_id) = uuid_parse_result(rq.id@) {
                if has_post(before, post_id) {
                    if find_post(before, post_id).unwrap().author_id != user_id {
                        assert(forbidden_to_bearer(before, credentials, secret, rq.id@));
                    } else {
                        assert(deleted_by_bearer(before, self.blog().posts(), credentials, secret, rq.id@));
                    }
                }
            }
        }
        r
    }

    /// A page of posts; the reply repeats the limit and the offset that the
    /// request gave.
    pub fn list_posts(&self, req: ListPostsRequest) -> (r: Result<ListPostsReply, GrpcStatus>)
        requires
            self.wf(),
        ensures
            r matches Ok(rep) && rep.total == self.blog().posts().len() && rep.limit == req.limit
                && rep.offset == req.offset && carries_page(
                rep.posts@,
                page_of(
                    self.blog().posts(),
                    clamp_limit(req.limit) as int,
                    clamp_offset(req.offset) as int,
                ),
            ),
    {
        list_reply(self.blog_serv.list_posts(req.limit, req.offset), req.limit, req.offset)
    }
}

/// Whether message posts carry the posts, one for one.
pub open spec fn carries_page(pps: Seq<ProtoPost>, ps: Seq<Post>) -> bool {
    pps.len() == ps.len() && forall|i: int| 0 <= i < ps.len() ==> carries_post(#[trigger] pps[i], ps[i])
}

/// A stored post with the fields that an update request carries written over
/// it.
pub open spec fn edited_request(stored: Post, req: UpdatePostRequest) -> Post {
    edited(stored, UpdatePost { title: req.title, content: req.content })
}

/// The store after the post named by the request was rewritten at `stamp`,
/// and the reply that carries it.
pub open spec fn rewrite_witness(before: Seq<Post>, after: Seq<Post>, pp: ProtoPost, post_id: u128, req: UpdatePostRequest, stamp: i64) -> bool {
    let stored = find_post(before, post_id).unwrap();
    &&& after == with_rewrite(before, edited_request(stored, req), stamp)
    &&& carries_post(pp, rewritten(stored, edited_request(stored, req), stamp))
}

/// Whether a refusal as not found names a missing post, and a refusal as
/// forbidden a post of another user than the bearer's.
pub open spec fn missing_or_forbidden(s: GrpcStatus, before: Seq<Post>, authorization: Option<Result<String, String>>, secret: Seq<char>, id_text: Seq<char>) -> bool {
    &&& s.code == GrpcCode::NotFound ==> (uuid_parse_result(id_text) matches Ok(id) && !has_post(
        before,
        id,
    ) && s.message@ == "Post not found: "@ + uuid_text(id))
    &&& s.code == GrpcCode::PermissionDenied ==> forbidden_to_bearer(before, authorization, secret, id_text)
}

/// Whether the request names a stored post by another user than the one that
/// the bearer token names.
pub open spec fn forbidden_to_bearer(before: Seq<Post>, authorization: Option<Result<String, String>>, secret: Seq<char>, id_text: Seq<char>) -> bool {
    exists|user_id: u128|
        #![trigger bears_token_of(authorization, secret, user_id)]
        bears_token_of(authorization, secret, user_id) && (uuid_parse_result(id_text) matches Ok(
            post_id,
        ) && has_post(before, post_id) && find_post(before, post_id).unwrap().author_id != user_id)
}

/// Whether a reply reports the post named by the request, written by the user
/// that the bearer token names, changed by the request at some time.
pub open spec fn updated_by_bearer(before: Seq<Post>, after: Seq<Post>, pp: ProtoPost, authorization: Option<Result<String, String>>, secret: Seq<char>, req: UpdatePostRequest) -> bool {
    exists|user_id: u128, post_id: u128, stamp: i64|
        #![trigger bears_token_of(authorization, secret, user_id), rewrite_witness(before, after, pp, post_id, req, stamp)]
        bears_token_of(authorization, secret, user_id) && uuid_parse_result(req.id@) == Ok::<
            u128,
            Seq<char>,
        >(post_id) && has_post(before, post_id) && find_post(before, post_id).unwrap().author_id
            == user_id && rewrite_witness(before, after, pp, post_id, req, stamp)
}

/// Whether the store lost the post named by the request, written by the user
/// that the bearer token names.
pub open spec fn deleted_by_bearer(before: Seq<Post>, after: Seq<Post>, authorization: Option<Result<String, String>>, secret: Seq<char>, id_text: Seq<char>) -> bool {
    exists|user_id: u128|
        #![trigger bears_token_of(authorization, secret, user_id)]
        bears_token_of(authorization, secret, user_id) && (uuid_parse_result(id_text) matches Ok(
            post_id,
        ) && has_post(before, post_id) && find_post(before, post_id).unwrap().author_id == user_id
            && after == without_post(before, post_id))
}

/// A user in message form carries the stored user's identifier in text, its
/// username and its email, each from its own field.
pub proof fn law_message_user_fields(pu: ProtoUser, u: User)
    requires
        carries_user(pu, u),
    ensures
        pu.id@ == uuid_text(u.id),
        pu.username == u.username,
        pu.email == u.email,
{
}

/// A post in message form carries the post's identifier and author in text,
/// its title and content, and its creation and update times each in whole
/// seconds, rounded towards the past, of its own field.
pub proof fn law_message_post_fields(pp: ProtoPost, p: Post)
    requires
        carries_post(pp, p),
    ensures
        pp.id@ == uuid_text(p.id),
        pp.title == p.title,
        pp.content == p.content,
        pp.author_id@ == uuid_text(p.author_id),
        pp.created_at == p.created_at as int / 1_000_000,
        pp.updated_at == p.updated_at as int / 1_000_000,
        p.created_at as int / 1_000_000 != p.updated_at as int / 1_000_000 ==> pp.created_at
            != pp.updated_at,
{
}

/// The reply to an update carries the update time that the store wrote and
/// the creation time of the stored post, each in whole seconds, with the
/// request's title and content where it gave them.
pub proof fn law_update_reply_times(
    before: Seq<Post>,
    after: Seq<Post>,
    pp: ProtoPost,
    post_id: u128,
    req: UpdatePostRequest,
    stamp: i64,
)
    requires
        rewrite_witness(before, after, pp, post_id, req, stamp),
    ensures
        pp.updated_at == stamp as int / 1_000_000,
        pp.created_at == find_post(before, post_id).unwrap().created_at as int / 1_000_000,
        req.title matches Some(t) ==> pp.title == t,
        req.content matches Some(c) ==> pp.content == c,
{
}

/// A gRPC registration that succeeds replies with the new user: the
/// request's username and its email in lower case.
pub proof fn law_register_reply_user(
    before: Seq<User>,
    after: Seq<User>,
    secret: Seq<char>,
    req: RegisterRequest,
    o: Result<(User, String), AppError>,
    r: Result<RegisterReply, GrpcStatus>,
)
    requires
        registration(before, after, secret, req.username, req.email@, req.password@, o),
        register_reply_carries(r, o),
        r is Ok,
    ensures
        r->Ok_0.user matches Some(pu) && pu.username == req.username && pu.email@ == lowercase(
            req.email@,
        ),
{
}

} // verus!
