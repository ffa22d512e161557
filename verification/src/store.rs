use vstd::prelude::*;

use crate::domain::{DomainError, PaginatedPosts, Post, User};
use crate::ids::{clock_micros, micros_in_range};
use crate::text::owned;

verus! {

// ---------------------------------------------------------------------------
// Posts
// ---------------------------------------------------------------------------

/// Posts are kept newest first: a post never stands before a newer one.
pub open spec fn newest_first(s: Seq<Post>) -> bool {
    forall|i: int, j: int| 0 <= i < j < s.len() ==> s[i].created_at >= s[j].created_at
}

/// No two posts share an identifier.
pub open spec fn post_ids_unique(s: Seq<Post>) -> bool {
    forall|i: int, j: int| 0 <= i < s.len() && 0 <= j < s.len() && i != j ==> s[i].id != s[j].id
}

/// The message with which the store refuses a post whose identifier is taken.
pub open spec fn duplicate_post_text() -> Seq<char> {
    "error returned from database: duplicate key value violates unique constraint \"posts_pkey\""@
}

/// Whether the creation and update times of a post are dates that `chrono`
/// holds, as every `DateTime<Utc>` is.
pub open spec fn post_times_in_range(p: Post) -> bool {
    micros_in_range(p.created_at as int) && micros_in_range(p.updated_at as int)
}

/// Whether the times of every post are dates that `chrono` holds.
pub open spec fn times_in_range(s: Seq<Post>) -> bool {
    forall|i: int| 0 <= i < s.len() ==> post_times_in_range(#[trigger] s[i])
}

/// Whether a post with the identifier is stored.
pub open spec fn has_post(s: Seq<Post>, id: u128) -> bool {
    exists|i: int| 0 <= i < s.len() && s[i].id == id
}

/// The position of the post with the identifier, where there is one.
pub open spec fn post_position(s: Seq<Post>, id: u128) -> int {
    choose|i: int| 0 <= i < s.len() && s[i].id == id
}

/// The stored post with the identifier.
pub open spec fn find_post(s: Seq<Post>, id: u128) -> Option<Post> {
    if has_post(s, id) {
        Some(s[post_position(s, id)])
    } else {
        None
    }
}

/// The place where a post created at `t` goes: after every strictly newer post.
pub open spec fn insert_position(s: Seq<Post>, t: i64) -> nat
    decreases s.len(),
{
    if s.len() == 0 || s[0].created_at <= t {
        0
    } else {
        1 + insert_position(s.drop_first(), t)
    }
}

/// The posts once a new post is added in its place.
pub open spec fn with_post(s: Seq<Post>, p: Post) -> Seq<Post> {
    s.insert(insert_position(s, p.created_at) as int, p)
}

/// The posts once the post with the identifier is removed.
pub open spec fn without_post(s: Seq<Post>, id: u128) -> Seq<Post> {
    if has_post(s, id) {
        s.remove(post_position(s, id))
    } else {
        s
    }
}

/// The stored post once an update has written `p` into it at time `now`: the
/// identifier and the creation time stay.
pub open spec fn rewritten(stored: Post, p: Post, now: i64) -> Post {
    Post {
        id: stored.id,
        title: p.title,
        content: p.content,
        author_id: p.author_id,
        created_at: stored.created_at,
        updated_at: now,
    }
}

/// The posts once the post with `p`'s identifier is rewritten at time `now`.
pub open spec fn with_rewrite(s: Seq<Post>, p: Post, now: i64) -> Seq<Post> {
    if has_post(s, p.id) {
        s.update(post_position(s, p.id), rewritten(s[post_position(s, p.id)], p, now))
    } else {
        s
    }
}

/// The bounds of a page: posts `lo .. hi` of `len`.
pub open spec fn page_start(len: int, offset: int) -> int {
    if offset < len {
        offset
    } else {
        len
    }
}

pub open spec fn page_end(len: int, limit: int, offset: int) -> int {
    if offset + limit < len {
        offset + limit
    } else {
        len
    }
}

/// The page of posts that a query with `limit` and `offset` gives.
pub open spec fn page_of(s: Seq<Post>, limit: int, offset: int) -> Seq<Post> {
    s.subrange(page_start(s.len() as int, offset), page_end(s.len() as int, limit, offset))
}

/// In a store without duplicate identifiers, a post is found where it stands.
pub proof fn lemma_find_at(s: Seq<Post>, i: int)
    requires
        post_ids_unique(s),
        0 <= i < s.len(),
    ensures
        has_post(s, s[i].id),
        post_position(s, s[i].id) == i,
        find_post(s, s[i].id) == Some(s[i]),
{
    assert(has_post(s, s[i].id));
    let j = post_position(s, s[i].id);
    assert(s[j].id == s[i].id);
}

proof fn lemma_insert_position_bounds(s: Seq<Post>, t: i64)
    ensures
        insert_position(s, t) <= s.len(),
        forall|k: int| 0 <= k < insert_position(s, t) ==> s[k].created_at > t,
        newest_first(s) ==> forall|k: int|
            insert_position(s, t) <= k < s.len() ==> s[k].created_at <= t,
    decreases s.len(),
{
    if s.len() == 0 || s[0].created_at <= t {
    } else {
        let r = s.drop_first();
        lemma_insert_position_bounds(r, t);
        assert forall|k: int| 0 <= k < insert_position(s, t) implies s[k].created_at > t by {
            if k > 0 {
                assert(s[k] == r[k - 1]);
            }
        }
        if newest_first(s) {
            assert(newest_first(r));
            assert forall|k: int| insert_position(s, t) <= k < s.len() implies s[k].created_at
                <= t by {
                assert(s[k] == r[k - 1]);
            }
        }
    }
}

proof fn lemma_insert_position_is(s: Seq<Post>, t: i64, i: int)
    requires
        0 <= i <= s.len(),
        forall|k: int| 0 <= k < i ==> s[k].created_at > t,
        i == s.len() || s[i].created_at <= t,
    ensures
        insert_position(s, t) == i,
    decreases s.len(),
{
    if s.len() == 0 || s[0].created_at <= t {
    } else {
        let r = s.drop_first();
        assert forall|k: int| 0 <= k < i - 1 implies r[k].created_at > t by {
            assert(r[k] == s[k + 1]);
        }
        if i - 1 < r.len() {
            assert(r[i - 1] == s[i]);
        }
        lemma_insert_position_is(r, t, i - 1);
    }
}

/// Adding a post in its place keeps the posts newest first and, when its
/// identifier is new, without duplicates; it is then found, and every other
/// post is found as before.
pub proof fn lemma_with_post(s: Seq<Post>, p: Post)
    requires
        newest_first(s),
        post_ids_unique(s),
        !has_post(s, p.id),
    ensures
        newest_first(with_post(s, p)),
        post_ids_unique(with_post(s, p)),
        with_post(s, p).len() == s.len() + 1,
        find_post(with_post(s, p), p.id) == Some(p),
        forall|id: u128| id != p.id ==> find_post(with_post(s, p), id) == find_post(s, id),
{
    let k = insert_position(s, p.created_at) as int;
    let n = with_post(s, p);
    lemma_insert_position_bounds(s, p.created_at);
    assert(n[k] == p);
    assert forall|i: int| 0 <= i < s.len() && i < k implies n[i] == s[i] by {}
    assert forall|i: int| k <= i < s.len() implies n[i + 1] == s[i] by {}
    assert forall|i: int, j: int| 0 <= i < j < n.len() implies n[i].created_at
        >= n[j].created_at by {
        if i < k && j < k {
        } else if i < k && j == k {
        } else if i < k {
            assert(n[j] == s[j - 1]);
        } else if i == k {
            assert(n[j] == s[j - 1]);
        } else {
            assert(n[i] == s[i - 1]);
            assert(n[j] == s[j - 1]);
        }
    }
    assert forall|i: int, j: int|
        0 <= i < n.len() && 0 <= j < n.len() && i != j implies n[i].id != n[j].id by {
        if i == k {
            if j < k {
                assert(s[j].id != p.id);
            } else {
                assert(n[j] == s[j - 1]);
                assert(s[j - 1].id != p.id);
            }
        } else if j == k {
            if i < k {
                assert(s[i].id != p.id);
            } else {
                assert(n[i] == s[i - 1]);
                assert(s[i - 1].id != p.id);
            }
        } else {
            let si = if i < k { i } else { i - 1 };
            let sj = if j < k { j } else { j - 1 };
            assert(n[i] == s[si]);
            assert(n[j] == s[sj]);
        }
    }
    lemma_find_at(n, k);
    assert forall|id: u128| id != p.id implies find_post(n, id) == find_post(s, id) by {
        if has_post(s, id) {
            let i = post_position(s, id);
            lemma_find_at(s, i);
            let ni = if i < k { i } else { i + 1 };
            assert(n[ni] == s[i]);
            lemma_find_at(n, ni);
        } else if has_post(n, id) {
            let j = post_position(n, id);
            assert(n[j].id == id);
            if j < k {
                assert(n[j] == s[j]);
            } else if j > k {
                assert(n[j] == s[j - 1]);
            }
        }
    }
}

/// Removing the post with an identifier keeps the order and the uniqueness; it
/// is then not found, and every other post is found as before.
pub proof fn lemma_without_post(s: Seq<Post>, id: u128)
    requires
        newest_first(s),
        post_ids_unique(s),
    ensures
        newest_first(without_post(s, id)),
        post_ids_unique(without_post(s, id)),
        find_post(without_post(s, id), id) == None::<Post>,
        forall|other: u128| other != id ==> find_post(without_post(s, id), other) == find_post(
            s,
            other,
        ),
        has_post(s, id) ==> without_post(s, id).len() == s.len() - 1,
{
    if has_post(s, id) {
        let k = post_position(s, id);
        let n = s.remove(k);
        assert(s[k].id == id);
        assert forall|i: int| 0 <= i < n.len() implies n[i] == (if i < k {
            s[i]
        } else {
            s[i + 1]
        }) by {}
        assert forall|i: int, j: int| 0 <= i < j < n.len() implies n[i].created_at
            >= n[j].created_at by {
            let si = if i < k { i } else { i + 1 };
            let sj = if j < k { j } else { j + 1 };
            assert(n[i] == s[si]);
            assert(n[j] == s[sj]);
        }
        assert forall|i: int, j: int|
            0 <= i < n.len() && 0 <= j < n.len() && i != j implies n[i].id != n[j].id by {
            let si = if i < k { i } else { i + 1 };
            let sj = if j < k { j } else { j + 1 };
            assert(n[i] == s[si]);
            assert(n[j] == s[sj]);
        }
        if has_post(n, id) {
            let j = post_position(n, id);
            let sj = if j < k { j } else { j + 1 };
            assert(n[j] == s[sj]);
        }
        assert forall|other: u128| other != id implies find_post(n, other) == find_post(
            s,
            other,
        ) by {
            if has_post(s, other) {
                let i = post_position(s, other);
                lemma_find_at(s, i);
                assert(i != k);
                let ni = if i < k { i } else { i - 1 };
                assert(n[ni] == s[i]);
                lemma_find_at(n, ni);
            } else if has_post(n, other) {
                let j = post_position(n, other);
                let sj = if j < k { j } else { j + 1 };
                assert(n[j] == s[sj]);
            }
        }
    }
}

/// Rewriting a stored post keeps the order and the uniqueness; the rewritten
/// post is found, and every other post is found as before.
pub proof fn lemma_with_rewrite(s: Seq<Post>, p: Post, now: i64)
    requires
        newest_first(s),
        post_ids_unique(s),
        has_post(s, p.id),
    ensures
        newest_first(with_rewrite(s, p, now)),
        post_ids_unique(with_rewrite(s, p, now)),
        with_rewrite(s, p, now).len() == s.len(),
        find_post(with_rewrite(s, p, now), p.id) == Some(
            rewritten(find_post(s, p.id).unwrap(), p, now),
        ),
        forall|other: u128| other != p.id ==> find_post(with_rewrite(s, p, now), other)
            == find_post(s, other),
{
    let k = post_position(s, p.id);
    lemma_find_at(s, k);
    let n = with_rewrite(s, p, now);
    assert(n[k].id == p.id);
    assert(n[k].created_at == s[k].created_at);
    assert forall|i: int| 0 <= i < n.len() && i != k implies n[i] == s[i] by {}
    assert forall|i: int, j: int|
        0 <= i < n.len() && 0 <= j < n.len() && i != j implies n[i].id != n[j].id by {
        assert(n[i].id == s[i].id);
        assert(n[j].id == s[j].id);
    }
    lemma_find_at(n, k);
    assert forall|other: u128| other != p.id implies find_post(n, other) == find_post(
        s,
        other,
    ) by {
        if has_post(s, other) {
            let i = post_position(s, other);
            lemma_find_at(s, i);
            lemma_find_at(n, i);
        } else if has_post(n, other) {
            let j = post_position(n, other);
            assert(n[j].id == s[j].id);
        }
    }
}

/// Posts held in memory, newest first, with the semantics of the `posts`
/// table: a primary key on the identifier, pages ordered by creation time,
/// newest first.
pub struct MemoryPostRepository {
    posts: Vec<Post>,
}

impl View for MemoryPostRepository {
    type V = Seq<Post>;

    closed spec fn view(&self) -> Seq<Post> {
        self.posts@
    }
}

impl MemoryPostRepository {
    /// The repository's invariant: newest first, no duplicate identifiers,
    /// times that are dates `chrono` holds, a count that fits an `i64`.
    pub open spec fn wf(&self) -> bool {
        &&& newest_first(self@)
        &&& post_ids_unique(self@)
        &&& times_in_range(self@)
        &&& self@.len() <= i64::MAX
    }

    /// An empty repository.
    pub fn new() -> (r: MemoryPostRepository)
        ensures
            r.wf(),
            r@ == Seq::<Post>::empty(),
    {
        MemoryPostRepository { posts: Vec::new() }
    }

    /// The number of posts stored.
    pub fn len(&self) -> (r: usize)
        ensures
            r == self@.len(),
    {
        self.posts.len()
    }

    /// The position of the post with the identifier, if it is stored.
    fn position(&self, id: u128) -> (r: Option<usize>)
        requires
            self.wf(),
        ensures
            match r {
                Some(i) => i < self@.len() && self@[i as int].id == id && post_position(self@, id)
                    == i,
                None => !has_post(self@, id),
            },
    {
        let mut i: usize = 0;
        while i < self.posts.len()
            invariant
                self.wf(),
                i <= self.posts@.len(),
                forall|k: int| 0 <= k < i ==> self.posts@[k].id != id,
            decreases self.posts@.len() - i,
        {
            if self.posts[i].id == id {
                proof {
                    lemma_find_at(self@, i as int);
                }
                return Some(i);
            }
            i = i + 1;
        }
        None
    }

    /// Stores a new post. A post whose identifier is taken is refused, as the
    /// primary key refuses it.
    pub fn create(&mut self, post: Post) -> (r: Result<Post, DomainError>)
        requires
            old(self).wf(),
            post_times_in_range(post),
            old(self)@.len() < i64::MAX,
        ensures
            final(self).wf(),
            has_post(old(self)@, post.id) ==> (r matches Err(DomainError::Internal(m)) && m@
                == duplicate_post_text() && final(self)@ == old(self)@),
            !has_post(old(self)@, post.id) ==> r == Ok::<Post, DomainError>(post) && final(self)@
                == with_post(old(self)@, post),
    {
        if let Some(_) = self.position(post.id) {
            return Err(
                DomainError::Internal(
                    owned("error returned from database: duplicate key value violates unique constraint \"posts_pkey\""),
                ),
            );
        }
        let t = post.created_at;
        let mut i: usize = 0;
        while i < self.posts.len() && self.posts[i].created_at > t
            invariant
                i <= self.posts@.len(),
                forall|k: int| 0 <= k < i ==> self.posts@[k].created_at > t,
            decreases self.posts@.len() - i,
        {
            i = i + 1;
        }
        proof {
            lemma_insert_position_is(self@, t, i as int);
            lemma_with_post(self@, post);
        }
        let stored = post.duplicate();
        self.posts.insert(i, stored);
        Ok(post)
    }

    /// The post with the identifier, if it is stored.
    pub fn find_by_id(&self, id: u128) -> (r: Option<Post>)
        requires
            self.wf(),
        ensures
            r == find_post(self@, id),
    {
        match self.position(id) {
            Some(i) => {
                proof {
                    lemma_find_at(self@, i as int);
                }
                Some(self.posts[i].duplicate())
            },
            None => None,
        }
    }

    /// Writes the title, content and author of `post` into the stored post
    /// with its identifier and stamps it with the current time; the creation
    /// time stays. A missing post is reported.
    pub fn update(&mut self, post: Post) -> (r: Result<Post, DomainError>)
        requires
            old(self).wf(),
        ensures
            final(self).wf(),
            !has_post(old(self)@, post.id) ==> r == Err::<Post, DomainError>(
                DomainError::PostNotFound(post.id),
            ) && final(self)@ == old(self)@,
            has_post(old(self)@, post.id) ==> (r matches Ok(u) && u == rewritten(
                find_post(old(self)@, post.id).unwrap(),
                post,
                u.updated_at,
            ) && final(self)@ == with_rewrite(old(self)@, post, u.updated_at)),
    {
        match self.position(post.id) {
            None => Err(DomainError::PostNotFound(post.id)),
            Some(i) => {
                let now = clock_micros();
                proof {
                    lemma_find_at(self@, i as int);
                    lemma_with_rewrite(self@, post, now);
                }
                let stored_created = self.posts[i].created_at;
                let updated = Post {
                    id: post.id,
                    title: post.title,
                    content: post.content,
                    author_id: post.author_id,
                    created_at: stored_created,
                    updated_at: now,
                };
                let answer = updated.duplicate();
                self.posts.set(i, updated);
                Ok(answer)
            },
        }
    }

    /// Removes the post with the identifier; a missing post is reported.
    pub fn delete(&mut self, id: u128) -> (r: Result<(), DomainError>)
        requires
            old(self).wf(),
        ensures
            final(self).wf(),
            !has_post(old(self)@, id) ==> r == Err::<(), DomainError>(DomainError::PostNotFound(id))
                && final(self)@ == old(self)@,
            has_post(old(self)@, id) ==> r == Ok::<(), DomainError>(()) && final(self)@
                == without_post(old(self)@, id),
    {
        match self.position(id) {
            None => Err(DomainError::PostNotFound(id)),
            Some(i) => {
                proof {
                    lemma_without_post(self@, id);
                }
                self.posts.remove(i);
                Ok(())
            },
        }
    }

    /// A page of posts, newest first, and the number of all posts. A negative
    /// limit or offset is refused, as the database refuses it, the limit first.
    pub fn list_paginated(&self, limit: i64, offset: i64) -> (r: Result<PaginatedPosts, DomainError>)
        requires
            self.wf(),
        ensures
            limit < 0 ==> (r matches Err(DomainError::Internal(m)) && m@
                == "error returned from database: LIMIT must not be negative"@),
            limit >= 0 && offset < 0 ==> (r matches Err(DomainError::Internal(m)) && m@
                == "error returned from database: OFFSET must not be negative"@),
            limit >= 0 && offset >= 0 ==> (r matches Ok(p) && p.total == self@.len() && p.posts@
                == page_of(self@, limit as int, offset as int)),
    {
        if limit < 0 {
            return Err(DomainError::Internal(owned("error returned from database: LIMIT must not be negative")));
        }
        if offset < 0 {
            return Err(DomainError::Internal(owned("error returned from database: OFFSET must not be negative")));
        }
        let len = self.posts.len();
        let lo: usize = if (offset as u64) < (len as u64) {
            offset as usize
        } else {
            len
        };
        let hi: usize = if (offset as u64) + (limit as u64) < (len as u64) {
            (offset + limit) as usize
        } else {
            len
        };
        let mut page: Vec<Post> = Vec::new();
        let mut i = lo;
        while i < hi
            invariant
                lo <= i <= hi <= self.posts@.len(),
                page@ == self.posts@.subrange(lo as int, i as int),
            decreases hi - i,
        {
            let p = self.posts[i].duplicate();
            page.push(p);
            proof {
                assert(self.posts@.subrange(lo as int, i + 1) == self.posts@.subrange(
                    lo as int,
                    i as int,
                ).push(self.posts@[i as int]));
            }
            i = i + 1;
        }
        Ok(PaginatedPosts { posts: page, total: len as i64 })
    }
}

// ---------------------------------------------------------------------------
// Users
// ---------------------------------------------------------------------------

/// No two users share an identifier, a username or an email.
pub open spec fn users_unique(s: Seq<User>) -> bool {
    forall|i: int, j: int|
        0 <= i < s.len() && 0 <= j < s.len() && i != j ==> s[i].id != s[j].id && s[i].username@
            != s[j].username@ && s[i].email@ != s[j].email@
}

/// The message with which the store refuses a user whose identifier is taken.
pub open spec fn duplicate_user_id_text() -> Seq<char> {
    "database error: error returned from database: duplicate key value violates unique constraint \"users_pkey\""@
}

pub open spec fn user_id_taken(s: Seq<User>, id: u128) -> bool {
    exists|i: int| 0 <= i < s.len() && s[i].id == id
}

pub open spec fn username_taken(s: Seq<User>, name: Seq<char>) -> bool {
    exists|i: int| 0 <= i < s.len() && s[i].username@ == name
}

pub open spec fn email_taken(s: Seq<User>, email: Seq<char>) -> bool {
    exists|i: int| 0 <= i < s.len() && s[i].email@ == email
}

/// The stored user with the identifier.
pub open spec fn find_user_by_id(s: Seq<User>, id: u128) -> Option<User> {
    if user_id_taken(s, id) {
        Some(s[choose|i: int| 0 <= i < s.len() && s[i].id == id])
    } else {
        None
    }
}

/// The stored user with the username.
pub open spec fn find_user_by_name(s: Seq<User>, name: Seq<char>) -> Option<User> {
    if username_taken(s, name) {
        Some(s[choose|i: int| 0 <= i < s.len() && s[i].username@ == name])
    } else {
        None
    }
}

/// The user with no conflict with the stored ones, as the table's constraints
/// see it: a free identifier, username and email.
pub open spec fn user_fits(s: Seq<User>, u: User) -> bool {
    !user_id_taken(s, u.id) && !username_taken(s, u.username@) && !email_taken(s, u.email@)
}

/// In a store without duplicates, a user is found by identifier and by name
/// where it stands.
pub proof fn lemma_find_user_at(s: Seq<User>, i: int)
    requires
        users_unique(s),
        0 <= i < s.len(),
    ensures
        find_user_by_id(s, s[i].id) == Some(s[i]),
        find_user_by_name(s, s[i].username@) == Some(s[i]),
{
    assert(user_id_taken(s, s[i].id));
    assert(username_taken(s, s[i].username@));
    let j = choose|j: int| 0 <= j < s.len() && s[j].id == s[i].id;
    let k = choose|k: int| 0 <= k < s.len() && s[k].username@ == s[i].username@;
    assert(j == i);
    assert(k == i);
}

/// Adding a user that fits keeps the store without duplicates; the user is
/// found, and every other user is found as before.
pub proof fn lemma_with_user(s: Seq<User>, u: User)
    requires
        users_unique(s),
        user_fits(s, u),
    ensures
        users_unique(s.push(u)),
        find_user_by_id(s.push(u), u.id) == Some(u),
        find_user_by_name(s.push(u), u.username@) == Some(u),
        forall|id: u128| id != u.id ==> find_user_by_id(s.push(u), id) == find_user_by_id(s, id),
        forall|name: Seq<char>| name != u.username@ ==> find_user_by_name(s.push(u), name)
            == find_user_by_name(s, name),
{
    let n = s.push(u);
    assert forall|i: int, j: int|
        0 <= i < n.len() && 0 <= j < n.len() && i != j implies n[i].id != n[j].id
            && n[i].username@ != n[j].username@ && n[i].email@ != n[j].email@ by {
        if i == s.len() as int {
            assert(n[j] == s[j]);
        } else if j == s.len() as int {
            assert(n[i] == s[i]);
        } else {
            assert(n[i] == s[i]);
            assert(n[j] == s[j]);
        }
    }
    lemma_find_user_at(n, s.len() as int);
    assert forall|id: u128| id != u.id implies find_user_by_id(n, id) == find_user_by_id(s, id) by {
        if user_id_taken(s, id) {
            let i = choose|i: int| 0 <= i < s.len() && s[i].id == id;
            lemma_find_user_at(s, i);
            assert(n[i] == s[i]);
            lemma_find_user_at(n, i);
        } else if user_id_taken(n, id) {
            let j = choose|j: int| 0 <= j < n.len() && n[j].id == id;
            if j < s.len() {
                assert(n[j] == s[j]);
            }
        }
    }
    assert forall|name: Seq<char>| name != u.username@ implies find_user_by_name(n, name)
        == find_user_by_name(s, name) by {
        if username_taken(s, name) {
            let i = choose|i: int| 0 <= i < s.len() && s[i].username@ == name;
            lemma_find_user_at(s, i);
            assert(n[i] == s[i]);
            lemma_find_user_at(n, i);
        } else if username_taken(n, name) {
            let j = choose|j: int| 0 <= j < n.len() && n[j].username@ == name;
            if j < s.len() {
                assert(n[j] == s[j]);
            }
        }
    }
}

/// Users held in memory, with the constraints of the `users` table: one user
/// per identifier, per username and per email.
pub struct MemoryUserRepository {
    users: Vec<User>,
}

impl View for MemoryUserRepository {
    type V = Seq<User>;

    closed spec fn view(&self) -> Seq<User> {
        self.users@
    }
}

impl MemoryUserRepository {
    /// The repository's invariant: no duplicates.
    pub open spec fn wf(&self) -> bool {
        users_unique(self@)
    }

    /// An empty repository.
    pub fn new() -> (r: MemoryUserRepository)
        ensures
            r.wf(),
            r@ == Seq::<User>::empty(),
    {
        MemoryUserRepository { users: Vec::new() }
    }

    /// Stores a new user. The table's constraints are checked in the order of
    /// its columns: identifier, username, email.
    pub fn create(&mut self, user: User) -> (r: Result<User, DomainError>)
        requires
            old(self).wf(),
        ensures
            final(self).wf(),
            user_fits(old(self)@, user) ==> r == Ok::<User, DomainError>(user) && final(self)@
                == old(self)@.push(user),
            !user_fits(old(self)@, user) ==> final(self)@ == old(self)@,
            user_id_taken(old(self)@, user.id) ==> (r matches Err(DomainError::Internal(m)) && m@
                == duplicate_user_id_text()),
            !user_id_taken(old(self)@, user.id) && username_taken(old(self)@, user.username@) ==> (
            r matches Err(DomainError::UserAlreadyExists(m)) && m@ == "username already exists"@),
            !user_id_taken(old(self)@, user.id) && !username_taken(old(self)@, user.username@)
                && email_taken(old(self)@, user.email@) ==> (r matches Err(
                DomainError::UserAlreadyExists(m),
            ) && m@ == "email already exists"@),
    {
        let mut i: usize = 0;
        let mut id_clash = false;
        let mut name_clash = false;
        let mut email_clash = false;
        while i < self.users.len()
            invariant
                i <= self.users@.len(),
                id_clash == exists|k: int| 0 <= k < i && self.users@[k].id == user.id,
                name_clash == exists|k: int| 0 <= k < i && self.users@[k].username@
                    == user.username@,
                email_clash == exists|k: int| 0 <= k < i && self.users@[k].email@ == user.email@,
            decreases self.users@.len() - i,
        {
            if self.users[i].id == user.id {
                id_clash = true;
            }
            if self.users[i].username == user.username {
                name_clash = true;
            }
            if self.users[i].email == user.email {
                email_clash = true;
            }
            i = i + 1;
        }
        if id_clash {
            return Err(
                DomainError::Internal(
                    owned(
                        "database error: error returned from database: duplicate key value violates unique constraint \"users_pkey\"",
                    ),
                ),
            );
        }
        if name_clash {
            return Err(DomainError::UserAlreadyExists(owned("username already exists")));
        }
        if email_clash {
            return Err(DomainError::UserAlreadyExists(owned("email already exists")));
        }
        proof {
            lemma_with_user(self@, user);
        }
        let stored = user.duplicate();
        self.users.push(stored);
        Ok(user)
    }

    /// The user with the username, if there is one.
    pub fn find_by_username(&self, username: &str) -> (r: Option<User>)
        requires
            self.wf(),
        ensures
            r == find_user_by_name(self@, username@),
    {
        let name = owned(username);
        let mut i: usize = 0;
        while i < self.users.len()
            invariant
                self.wf(),
                name@ == username@,
                i <= self.users@.len(),
                forall|k: int| 0 <= k < i ==> self.users@[k].username@ != username@,
            decreases self.users@.len() - i,
        {
            if self.users[i].username == name {
                proof {
                    lemma_find_user_at(self@, i as int);
                }
                return Some(self.users[i].duplicate());
            }
            i = i + 1;
        }
        None
    }

    /// The user with the identifier, if there is one.
    pub fn find_by_id(&self, id: u128) -> (r: Option<User>)
        requires
            self.wf(),
        ensures
            r == find_user_by_id(self@, id),
    {
        let mut i: usize = 0;
        while i < self.users.len()
            invariant
                self.wf(),
                i <= self.users@.len(),
                forall|k: int| 0 <= k < i ==> self.users@[k].id != id,
            decreases self.users@.len() - i,
        {
            if self.users[i].id == id {
                proof {
                    lemma_find_user_at(self@, i as int);
                }
                return Some(self.users[i].duplicate());
            }
            i = i + 1;
        }
        None
    }
}

} // verus!
