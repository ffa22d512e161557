use vstd::prelude::*;

use crate::domain::{AppError, CreatePost, DomainError, PaginatedPosts, Post, UpdatePost, User};
use crate::ids::{is_v7, micros_in_range, new_uuid_v7, uuid_text, uuid_to_string};
use crate::security::{argon2_check, hash_password, issued_for, verify_password, JwtService};
use crate::store::{
    lemma_with_post, lemma_without_post, lemma_find_user_at,
    duplicate_post_text, find_post, has_post, times_in_range, post_times_in_range, lemma_find_at, lemma_with_rewrite, newest_first, page_of, post_ids_unique,
    post_position, rewritten, with_post, with_rewrite, without_post, MemoryPostRepository,
    MemoryUserRepository, find_user_by_id, find_user_by_name, lemma_with_user, user_fits,
    username_taken, email_taken, users_unique, duplicate_user_id_text, user_id_taken,
};
use crate::text::{join2, lowercase, owned, starts_with, to_lowercase};
use vstd::utf8::encode_utf8;

verus! {

// ---------------------------------------------------------------------------
// Posts
// ---------------------------------------------------------------------------

/// Every post that the service reads back has times that `chrono` holds.
pub proof fn lemma_read_post_in_range(service: &BlogService, id: u128)
    requires
        service.wf(),
        has_post(service.posts(), id),
    ensures
        post_times_in_range(find_post(service.posts(), id).unwrap()),
{
    service.lemma_wf();
    let s = service.posts();
    let k = post_position(s, id);
    assert(0 <= k < s.len() && s[k].id == id);
    assert(post_times_in_range(s[k]));
}

/// The posts from position `offset` on, at most `limit` of them.
pub open spec fn requested_page(s: Seq<Post>, limit: int, offset: int) -> Seq<Post> {
    Seq::new(
        if offset >= s.len() {
            0
        } else if s.len() - offset < limit {
            (s.len() - offset) as nat
        } else {
            limit as nat
        },
        |i: int| s[offset + i],
    )
}

/// A request for at most 100 posts from a position gets exactly the posts
/// from that position on, as many as it asked for where there are enough:
/// the page holds `min(limit, len - offset)` posts, the `i`-th being the
/// post at `offset + i`.
pub proof fn law_requested_page(s: Seq<Post>, limit: i64, offset: i64)
    requires
        1 <= limit <= 100,
        0 <= offset,
    ensures
        page_of(s, clamp_limit(limit) as int, clamp_offset(offset) as int) == requested_page(
            s,
            limit as int,
            offset as int,
        ),
        page_of(s, clamp_limit(limit) as int, clamp_offset(offset) as int).len() == if offset
            >= s.len() {
            0
        } else if s.len() - offset < limit {
            s.len() - offset
        } else {
            limit as int
        },
        forall|i: int|
            0 <= i < page_of(s, clamp_limit(limit) as int, clamp_offset(offset) as int).len()
                ==> #[trigger] page_of(s, clamp_limit(limit) as int, clamp_offset(offset) as int)[i]
                == s[offset + i],
{
    assert(page_of(s, clamp_limit(limit) as int, clamp_offset(offset) as int) =~= requested_page(
        s,
        limit as int,
        offset as int,
    ));
}

/// The page size that a request gets: between 1 and 100.
pub open spec fn clamp_limit(limit: i64) -> i64 {
    if limit < 1 {
        1
    } else if limit > 100 {
        100
    } else {
        limit
    }
}

/// The offset that a request gets: never negative.
pub open spec fn clamp_offset(offset: i64) -> i64 {
    if offset < 0 {
        0
    } else {
        offset
    }
}

/// What reading a post gives.
pub open spec fn get_outcome(s: Seq<Post>, id: u128) -> Result<Post, AppError> {
    match find_post(s, id) {
        Some(p) => Ok(p),
        None => Err(AppError::Domain(DomainError::PostNotFound(id))),
    }
}

/// A stored post with the fields that an update carries written over it.
pub open spec fn edited(stored: Post, update: UpdatePost) -> Post {
    Post {
        title: match update.title {
            Some(t) => t,
            None => stored.title,
        },
        content: match update.content {
            Some(c) => c,
            None => stored.content,
        },
        ..stored
    }
}

/// Two rewrites of the same post amount to the last one.
proof fn lemma_rewrite_twice(s: Seq<Post>, p: Post, t1: i64, t2: i64)
    requires
        newest_first(s),
        post_ids_unique(s),
        has_post(s, p.id),
    ensures
        with_rewrite(with_rewrite(s, p, t1), rewritten(find_post(s, p.id).unwrap(), p, t1), t2)
            == with_rewrite(s, p, t2),
{
    let k = post_position(s, p.id);
    lemma_find_at(s, k);
    lemma_with_rewrite(s, p, t1);
    let s1 = with_rewrite(s, p, t1);
    let q = rewritten(s[k], p, t1);
    lemma_find_at(s1, k);
    assert(s1[k] == q);
    assert(rewritten(s1[k], q, t2) == rewritten(s[k], p, t2));
    assert(s1.update(k, rewritten(s1[k], q, t2)) =~= s.update(k, rewritten(s[k], p, t2)));
}

/// The rules of the blog's posts over a repository of posts.
pub struct BlogService {
    post_repo: MemoryPostRepository,
}

impl BlogService {
    /// The posts that the service holds, newest first.
    pub closed spec fn posts(&self) -> Seq<Post> {
        self.post_repo@
    }

    /// The service's invariant: that of its repository.
    pub closed spec fn wf(&self) -> bool {
        self.post_repo.wf()
    }

    /// A service over a repository.
    pub fn new(post_repo: MemoryPostRepository) -> (r: BlogService)
        requires
            post_repo.wf(),
        ensures
            r.wf(),
            r.posts() == post_repo@,
    {
        BlogService { post_repo }
    }

    /// The posts are kept newest first and without duplicate identifiers.
    pub proof fn lemma_wf(&self)
        requires
            self.wf(),
        ensures
            newest_first(self.posts()),
            post_ids_unique(self.posts()),
            times_in_range(self.posts()),
            self.posts().len() <= i64::MAX,
    {
    }

    /// The number of posts held.
    pub fn post_count(&self) -> (r: usize)
        requires
            self.wf(),
        ensures
            r == self.posts().len(),
    {
        self.post_repo.len()
    }

    /// Creates a post by the author with a fresh identifier, created and
    /// updated now. Only a fresh identifier that is already taken fails, so a
    /// service that holds no post never fails.
    pub fn create_post(&mut self, create: CreatePost, author_id: u128) -> (r: Result<Post, AppError>)
        requires
            old(self).wf(),
            old(self).posts().len() < i64::MAX,
        ensures
            final(self).wf(),
            r matches Ok(p) ==> p.title == create.title && p.content == create.content && p.author_id
                == author_id && p.created_at == p.updated_at && micros_in_range(p.created_at as int) && is_v7(p.id) && !has_post(old(self).posts(), p.id)
                && final(self).posts() == with_post(old(self).posts(), p),
            r matches Err(e) ==> (e matches AppError::Domain(DomainError::Internal(m)) && m@
                == duplicate_post_text()) && final(self).posts() == old(self).posts() && exists|id: u128|
                #[trigger] has_post(old(self).posts(), id),
    {
        let post = Post::new(new_uuid_v7(), create.title, create.content, author_id);
        let ghost id = post.id;
        match self.post_repo.create(post) {
            Ok(p) => Ok(p),
            Err(e) => {
                assert(has_post(old(self).posts(), id));
                Err(AppError::Domain(e))
            },
        }
    }

    /// The post with the identifier.
    pub fn get_post(&self, post_id: u128) -> (r: Result<Post, AppError>)
        requires
            self.wf(),
        ensures
            r == get_outcome(self.posts(), post_id),
    {
        match self.post_repo.find_by_id(post_id) {
            Some(p) => Ok(p),
            None => Err(AppError::Domain(DomainError::PostNotFound(post_id))),
        }
    }

    /// Changes the title and the content of a post; only its author may. The
    /// post is written twice, each time stamped with the clock.
    pub fn update_post(&mut self, post_id: u128, user_id: u128, update: UpdatePost) -> (r: Result<Post, AppError>)
        requires
            old(self).wf(),
        ensures
            final(self).wf(),
            !has_post(old(self).posts(), post_id) ==> r == Err::<Post, AppError>(
                AppError::Domain(DomainError::PostNotFound(post_id)),
            ) && final(self).posts() == old(self).posts(),
            has_post(old(self).posts(), post_id) && find_post(old(self).posts(), post_id).unwrap().author_id
                != user_id ==> r == Err::<Post, AppError>(
                AppError::Domain(DomainError::Forbidden { user_id, post_id }),
            ) && final(self).posts() == old(self).posts(),
            has_post(old(self).posts(), post_id) && find_post(old(self).posts(), post_id).unwrap().author_id
                == user_id ==> (r matches Ok(u) && u == rewritten(
                find_post(old(self).posts(), post_id).unwrap(),
                edited(find_post(old(self).posts(), post_id).unwrap(), update),
                u.updated_at,
            ) && final(self).posts() == with_rewrite(
                old(self).posts(),
                edited(find_post(old(self).posts(), post_id).unwrap(), update),
                u.updated_at,
            )),
    {
        let found = self.post_repo.find_by_id(post_id);
        let mut post = match found {
            Some(p) => p,
            None => {
                return Err(AppError::Domain(DomainError::PostNotFound(post_id)));
            },
        };
        if post.author_id != user_id {
            return Err(AppError::Domain(DomainError::Forbidden { user_id, post_id }));
        }
        let ghost stored = post;
        let ghost s0 = self.posts();
        proof {
            lemma_find_at(s0, post_position(s0, post_id));
        }
        match update.title {
            Some(t) => {
                post.title = t;
            },
            None => {},
        }
        match update.content {
            Some(c) => {
                post.content = c;
            },
            None => {},
        }
        assert(post == edited(stored, update));
        let first = self.post_repo.update(post);
        let updated = match first {
            Ok(u) => u,
            Err(e) => {
                return Err(AppError::Domain(e));
            },
        };
        let ghost t1 = updated.updated_at;
        proof {
            lemma_with_rewrite(s0, edited(stored, update), t1);
        }
        let second = self.post_repo.update(updated);
        match second {
            Ok(u) => {
                proof {
                    lemma_rewrite_twice(s0, edited(stored, update), t1, u.updated_at);
                }
                Ok(u)
            },
            Err(e) => Err(AppError::Domain(e)),
        }
    }

    /// Deletes a post; only its author may.
    pub fn delete_post(&mut self, post_id: u128, user_id: u128) -> (r: Result<(), AppError>)
        requires
            old(self).wf(),
        ensures
            final(self).wf(),
            !has_post(old(self).posts(), post_id) ==> r == Err::<(), AppError>(
                AppError::Domain(DomainError::PostNotFound(post_id)),
            ) && final(self).posts() == old(self).posts(),
            has_post(old(self).posts(), post_id) && find_post(old(self).posts(), post_id).unwrap().author_id
                != user_id ==> r == Err::<(), AppError>(
                AppError::Domain(DomainError::Forbidden { user_id, post_id }),
            ) && final(self).posts() == old(self).posts(),
            has_post(old(self).posts(), post_id) && find_post(old(self).posts(), post_id).unwrap().author_id
                == user_id ==> r == Ok::<(), AppError>(()) && final(self).posts() == without_post(
                old(self).posts(),
                post_id,
            ),
    {
        let found = self.post_repo.find_by_id(post_id);
        let post = match found {
            Some(p) => p,
            None => {
                return Err(AppError::Domain(DomainError::PostNotFound(post_id)));
            },
        };
        if post.author_id != user_id {
            return Err(AppError::Domain(DomainError::Forbidden { user_id, post_id }));
        }
        match self.post_repo.delete(post_id) {
            Ok(()) => Ok(()),
            Err(e) => Err(AppError::Domain(e)),
        }
    }

    /// A page of posts, newest first: the limit is brought between 1 and 100,
    /// a negative offset to 0.
    pub fn list_posts(&self, limit: i64, offset: i64) -> (r: Result<PaginatedPosts, AppError>)
        requires
            self.wf(),
        ensures
            r matches Ok(p) && p.total == self.posts().len() && p.posts@ == page_of(
                self.posts(),
                clamp_limit(limit) as int,
                clamp_offset(offset) as int,
            ),
            1 <= limit <= 100 && 0 <= offset ==> (r matches Ok(p) && p.posts@ == requested_page(
                self.posts(),
                limit as int,
                offset as int,
            )),
    {
        let limit = if limit < 1 {
            1
        } else if limit > 100 {
            100
        } else {
            limit
        };
        let offset = if offset < 0 {
            0
        } else {
            offset
        };
        proof {
            if 1 <= limit <= 100 && 0 <= offset {
                assert(page_of(self.posts(), limit as int, offset as int) =~= requested_page(
                    self.posts(),
                    limit as int,
                    offset as int,
                ));
            }
        }
        match self.post_repo.list_paginated(limit, offset) {
            Ok(p) => Ok(p),
            Err(e) => Err(AppError::Domain(e)),
        }
    }
}

// ---------------------------------------------------------------------------
// Users
// ---------------------------------------------------------------------------

/// Whether a login with the name and the password is accepted by the stored
/// users: the user exists and the password checks against its hash.
pub open spec fn login_accepted(s: Seq<User>, username: Seq<char>, password: Seq<char>) -> bool {
    find_user_by_name(s, username) matches Some(u) && argon2_check(password, u.password_hash@)
        == Some(true)
}

/// Whether an error is one of the given validation message.
pub open spec fn is_validation(e: AppError, msg: Seq<char>) -> bool {
    e matches AppError::Domain(DomainError::Validation(m)) && m@ == msg
}

/// Whether an error is the hashing failure.
pub open spec fn is_hash_failure(e: AppError) -> bool {
    e matches AppError::Hash(_)
}

/// Registration, login and token issue over a repository of users.
pub struct AuthService {
    repo: MemoryUserRepository,
    jwt_service: JwtService,
}

impl AuthService {
    /// The users that the service holds.
    pub closed spec fn users(&self) -> Seq<User> {
        self.repo@
    }

    /// The secret of the service's tokens.
    pub closed spec fn secret(&self) -> Seq<char> {
        self.jwt_service.secret()
    }

    /// The service's invariant: that of its repository.
    pub closed spec fn wf(&self) -> bool {
        self.repo.wf()
    }

    /// No two users share an identifier, a username or an email.
    pub proof fn lemma_wf(&self)
        requires
            self.wf(),
        ensures
            users_unique(self.users()),
    {
    }

    /// A service over a repository, issuing tokens with the token service.
    pub fn new(repo: MemoryUserRepository, jwt_service: JwtService) -> (r: AuthService)
        requires
            repo.wf(),
        ensures
            r.wf(),
            r.users() == repo@,
            r.secret() == jwt_service.secret(),
    {
        AuthService { repo, jwt_service }
    }

    /// The token service.
    pub fn jwt_service(&self) -> (r: &JwtService)
        ensures
            r.secret() == self.secret(),
    {
        &self.jwt_service
    }

    /// The user with the identifier.
    pub fn get_user(&self, id: u128) -> (r: Result<User, AppError>)
        requires
            self.wf(),
        ensures
            find_user_by_id(self.users(), id) matches Some(u) ==> r == Ok::<User, AppError>(u),
            find_user_by_id(self.users(), id) is None ==> (r matches Err(
                AppError::Domain(DomainError::UserNotFound(m)),
            ) && m@ == "user "@ + uuid_text(id)),
    {
        match self.repo.find_by_id(id) {
            Some(u) => Ok(u),
            None => {
                let t = uuid_to_string(id);
                Err(AppError::Domain(DomainError::UserNotFound(join2("user ", t.as_str()))))
            },
        }
    }

    /// Registers a user and issues its first token. The password must not be
    /// empty; it is hashed before the username and the email are checked; the
    /// email is stored in lower case. Hashing and the token rest on chance and
    /// on the clock: where they fail, the error says so; hashing fails only
    /// for a password of more than 2^32 - 1 bytes.
    pub fn register(&mut self, username: String, email: String, password: String) -> (r: Result<(User, String), AppError>)
        requires
            old(self).wf(),
        ensures
            final(self).wf(),
            final(self).secret() == old(self).secret(),
            password@.len() == 0 ==> (r matches Err(e) && is_validation(e, "password is empty"@))
                && final(self).users() == old(self).users(),
            encode_utf8(password@).len() <= 0xFFFF_FFFF ==> !(r matches Err(e) && is_hash_failure(e)),
            r matches Err(e) && !(e matches AppError::Internal(_)) ==> final(self).users() == old(self).users(),
            r matches Err(AppError::Domain(DomainError::Internal(m))) ==> m@ == duplicate_user_id_text()
                && final(self).users() == old(self).users() && exists|id: u128|
                #[trigger] user_id_taken(old(self).users(), id),
            r matches Err(AppError::Internal(_)) ==> exists|u: User|
                #![trigger old(self).users().push(u)]
                user_fits(old(self).users(), u) && final(self).users() == old(self).users().push(u),
            r matches Ok((u, t)) ==> password@.len() != 0 && u.username == username && u.email@
                == lowercase(email@) && argon2_check(password@, u.password_hash@) == Some(true)
                && starts_with(u.password_hash@, "$argon2id$"@)
                && user_fits(old(self).users(), u) && final(self).users() == old(self).users().push(u)
                && issued_for(t@, u.id, username@, old(self).secret()),
            password@.len() != 0 && username@.len() == 0 ==> (r matches Err(e) && (is_hash_failure(
                e,
            ) || is_validation(e, "username is empty"@))),
            password@.len() != 0 && username@.len() != 0 && email@.len() == 0 ==> (r matches Err(e)
                && (is_hash_failure(e) || is_validation(e, "email is empty"@))),
            password@.len() != 0 && username@.len() != 0 && email@.len() != 0 && username_taken(
                old(self).users(),
                username@,
            ) ==> (r matches Err(e) && (is_hash_failure(e) || e matches AppError::Domain(
                DomainError::Internal(_),
            ) || (e matches AppError::Domain(DomainError::UserAlreadyExists(m)) && m@
                == "username already exists"@))),
            password@.len() != 0 && username@.len() != 0 && email@.len() != 0 && !username_taken(
                old(self).users(),
                username@,
            ) && email_taken(old(self).users(), lowercase(email@)) ==> (r matches Err(e) && (
            is_hash_failure(e) || e matches AppError::Domain(DomainError::Internal(_)) || (e matches AppError::Domain(
                DomainError::UserAlreadyExists(m),
            ) && m@ == "email already exists"@))),
            password@.len() != 0 && username@.len() != 0 && email@.len() != 0 && !username_taken(
                old(self).users(),
                username@,
            ) && !email_taken(old(self).users(), lowercase(email@)) ==> (r is Ok || (r matches Err(
                e,
            ) && (is_hash_failure(e) || e matches AppError::Domain(DomainError::Internal(_))
                || e matches AppError::Internal(_)))),
    {
        if password.as_str().is_empty() {
            return Err(AppError::Domain(DomainError::Validation(owned("password is empty"))));
        }
        let hash = match hash_password(password.as_str()) {
            Ok(h) => h,
            Err(e) => {
                return Err(AppError::Hash(e));
            },
        };
        let email_lower = to_lowercase(email.as_str());
        let user = match User::new(username, email_lower, hash) {
            Ok(u) => u,
            Err(e) => {
                return Err(AppError::Domain(e));
            },
        };
        let ghost before = self.users();
        let ghost drawn = user.id;
        let user = match self.repo.create(user) {
            Ok(u) => u,
            Err(e) => {
                assert(e is Internal ==> user_id_taken(before, drawn));
                return Err(AppError::Domain(e));
            },
        };
        proof {
            lemma_with_user(before, user);
        }
        match self.jwt_service.generate_token(user.id, user.username.as_str()) {
            Ok(token) => Ok((user, token)),
            Err(e) => Err(AppError::Internal(e)),
        }
    }

    /// Checks a username and a password and issues a token for the user. A
    /// missing user, an unreadable stored hash and a wrong password are all
    /// refused as unauthorized.
    pub fn login(&self, username: &str, password: &str) -> (r: Result<(User, String), AppError>)
        requires
            self.wf(),
        ensures
            !login_accepted(self.users(), username@, password@) ==> r == Err::<(User, String), AppError>(
                AppError::Unauthorized,
            ),
            login_accepted(self.users(), username@, password@) ==> (r matches Ok((u, t)) && u
                == find_user_by_name(self.users(), username@).unwrap() && issued_for(
                t@,
                u.id,
                u.username@,
                self.secret(),
            )) || r matches Err(AppError::Internal(_)),
    {
        let user = match self.repo.find_by_username(username) {
            Some(u) => u,
            None => {
                return Err(AppError::Unauthorized);
            },
        };
        let valid = match verify_password(password, user.password_hash.as_str()) {
            Ok(b) => b,
            Err(_) => {
                return Err(AppError::Unauthorized);
            },
        };
        if !valid {
            return Err(AppError::Unauthorized);
        }
        match self.jwt_service.generate_token(user.id, user.username.as_str()) {
            Ok(token) => Ok((user, token)),
            Err(e) => Err(AppError::Internal(e)),
        }
    }
}

// ---------------------------------------------------------------------------
// Laws
// ---------------------------------------------------------------------------

/// A created post is read back as it was created, and every other post reads
/// as before.
pub proof fn law_read_after_create(s: Seq<Post>, p: Post)
    requires
        newest_first(s),
        post_ids_unique(s),
        !has_post(s, p.id),
    ensures
        get_outcome(with_post(s, p), p.id) == Ok::<Post, AppError>(p),
        forall|id: u128| id != p.id ==> get_outcome(with_post(s, p), id) == get_outcome(s, id),
{
    lemma_with_post(s, p);
}

/// A deleted post is no longer found, and every other post reads as before.
pub proof fn law_read_after_delete(s: Seq<Post>, id: u128)
    requires
        newest_first(s),
        post_ids_unique(s),
    ensures
        get_outcome(without_post(s, id), id) == Err::<Post, AppError>(
            AppError::Domain(DomainError::PostNotFound(id)),
        ),
        forall|other: u128| other != id ==> get_outcome(without_post(s, id), other) == get_outcome(
            s,
            other,
        ),
{
    lemma_without_post(s, id);
}

/// An update by the author reads back with the new title and content where
/// they were given and the old ones elsewhere; identifier, author and
/// creation time never change.
pub proof fn law_read_after_update(s: Seq<Post>, id: u128, update: UpdatePost, now: i64)
    requires
        newest_first(s),
        post_ids_unique(s),
        has_post(s, id),
    ensures
        ({
            let stored = find_post(s, id).unwrap();
            let after = with_rewrite(s, edited(stored, update), now);
            get_outcome(after, id) matches Ok(p) && p.id == id && p.author_id == stored.author_id
                && p.created_at == stored.created_at && p.updated_at == now && p.title == (match update.title {
                Some(t) => t,
                None => stored.title,
            }) && p.content == (match update.content {
                Some(c) => c,
                None => stored.content,
            })
        }),
{
    let stored = find_post(s, id).unwrap();
    let k = post_position(s, id);
    lemma_find_at(s, k);
    lemma_with_rewrite(s, edited(stored, update), now);
}

/// Every page holds between none and 100 posts, newest first, and pages
/// that follow one another join into the larger page.
pub proof fn law_pages(s: Seq<Post>, limit: i64, offset: i64)
    requires
        newest_first(s),
    ensures
        1 <= clamp_limit(limit) <= 100,
        0 <= clamp_offset(offset),
        page_of(s, clamp_limit(limit) as int, clamp_offset(offset) as int).len() <= clamp_limit(
            limit,
        ),
        newest_first(page_of(s, clamp_limit(limit) as int, clamp_offset(offset) as int)),
        clamp_offset(offset) < s.len() ==> page_of(
            s,
            clamp_limit(limit) as int,
            clamp_offset(offset) as int,
        ).len() > 0,
{
    let pg = page_of(s, clamp_limit(limit) as int, clamp_offset(offset) as int);
    let lo = crate::store::page_start(s.len() as int, clamp_offset(offset) as int);
    assert forall|i: int, j: int| 0 <= i < j < pg.len() implies pg[i].created_at
        >= pg[j].created_at by {
        assert(pg[i] == s[lo + i]);
        assert(pg[j] == s[lo + j]);
    }
}

/// Two consecutive pages of the same size join into the page of twice that
/// size.
pub proof fn law_consecutive_pages(s: Seq<Post>, limit: int, offset: int)
    requires
        limit >= 0,
        offset >= 0,
    ensures
        page_of(s, limit, offset) + page_of(s, limit, offset + limit) =~= page_of(
            s,
            2 * limit,
            offset,
        ),
{
}

/// A user just registered with a password logs in with it.
pub proof fn law_login_after_register(s: Seq<User>, u: User, password: Seq<char>)
    requires
        users_unique(s),
        user_fits(s, u),
        argon2_check(password, u.password_hash@) == Some(true),
    ensures
        login_accepted(s.push(u), u.username@, password),
        find_user_by_name(s.push(u), u.username@) == Some(u),
{
    lemma_with_user(s, u);
}

/// Once registered, a username and an email are taken: a second registration
/// with either is refused.
pub proof fn law_register_twice(s: Seq<User>, u: User)
    requires
        users_unique(s),
        user_fits(s, u),
    ensures
        username_taken(s.push(u), u.username@),
        email_taken(s.push(u), u.email@),
{
    assert(s.push(u)[s.len() as int] == u);
}

} // verus!
