use vstd::prelude::*;

use crate::ids::{clock_micros, is_v7, micros_in_range, new_uuid_v7, uuid_text, uuid_to_string};
use crate::text::{join2, join3, owned};

verus! {

/// A registered user. Times are microseconds since the Unix epoch.
#[derive(Clone, Debug)]
pub struct User {
    pub id: u128,
    pub username: String,
    pub email: String,
    pub password_hash: String,
    pub created_at: i64,
}

/// A blog post. Times are microseconds since the Unix epoch.
#[derive(Clone, Debug)]
pub struct Post {
    pub id: u128,
    pub title: String,
    pub content: String,
    pub author_id: u128,
    pub created_at: i64,
    pub updated_at: i64,
}

/// Errors of the domain rules.
#[derive(Clone, Debug)]
pub enum DomainError {
    UserNotFound(String),
    UserAlreadyExists(String),
    InvalidCredentials,
    PostNotFound(u128),
    Forbidden { user_id: u128, post_id: u128 },
    Validation(String),
    Internal(String),
}

/// Errors of the application services.
#[derive(Clone, Debug)]
pub enum AppError {
    Domain(DomainError),
    Database(String),
    Hash(String),
    Jwt(String),
    Config(String),
    Internal(String),
    Unauthorized,
}

/// Query of a page of posts.
#[derive(Clone, Debug)]
pub struct GetListPosts {
    pub limit: i64,
    pub offset: i64,
}

/// A page of posts, newest first, with the number of all posts.
#[derive(Clone, Debug)]
pub struct PaginatedPosts {
    pub posts: Vec<Post>,
    pub total: i64,
}

/// Payload that creates a post.
#[derive(Clone, Debug)]
pub struct CreatePost {
    pub title: String,
    pub content: String,
}

/// Payload that changes a post; a missing field stays as it is.
#[derive(Clone, Debug)]
pub struct UpdatePost {
    pub title: Option<String>,
    pub content: Option<String>,
}

/// Payload that registers a user.
#[derive(Clone, Debug)]
pub struct RegisterUser {
    pub username: String,
    pub email: String,
    pub password: String,
}

/// Answer to a registration.
#[derive(Clone, Debug)]
pub struct RegisterResponse {
    pub user: User,
    pub token: String,
}

/// Payload of a login.
#[derive(Clone, Debug)]
pub struct LoginUser {
    pub username: String,
    pub password: String,
}

/// Answer to a login.
#[derive(Clone, Debug)]
pub struct AuthResponse {
    pub user: User,
    pub token: String,
}

/// The message of a domain error.
pub open spec fn domain_error_text(e: DomainError) -> Seq<char> {
    match e {
        DomainError::UserNotFound(s) => "User not found: "@ + s@,
        DomainError::UserAlreadyExists(s) => "User already exists: "@ + s@,
        DomainError::InvalidCredentials => "Invalid credentials"@,
        DomainError::PostNotFound(id) => "Post not found: "@ + uuid_text(id),
        DomainError::Forbidden { user_id, post_id } => "Forbidden: user "@ + uuid_text(user_id)
            + " is not the author of post "@ + uuid_text(post_id),
        DomainError::Validation(s) => "Validation error: "@ + s@,
        DomainError::Internal(s) => "Internal domain error: "@ + s@,
    }
}

/// The message of an application error; a domain error keeps its own.
pub open spec fn app_error_text(e: AppError) -> Seq<char> {
    match e {
        AppError::Domain(d) => domain_error_text(d),
        AppError::Database(s) => "Database error: "@ + s@,
        AppError::Hash(s) => "Hashing error: "@ + s@,
        AppError::Jwt(s) => "JWT error: "@ + s@,
        AppError::Config(s) => "Configuration error: "@ + s@,
        AppError::Internal(_) => "Internal server error"@,
        AppError::Unauthorized => "unauthorized"@,
    }
}

impl DomainError {
    /// The message of the error.
    pub fn message(&self) -> (r: String)
        ensures
            r@ == domain_error_text(*self),
    {
        match self {
            DomainError::UserNotFound(s) => join2("User not found: ", s.as_str()),
            DomainError::UserAlreadyExists(s) => join2("User already exists: ", s.as_str()),
            DomainError::InvalidCredentials => owned("Invalid credentials"),
            DomainError::PostNotFound(id) => {
                let t = uuid_to_string(*id);
                join2("Post not found: ", t.as_str())
            },
            DomainError::Forbidden { user_id, post_id } => {
                let u = uuid_to_string(*user_id);
                let p = uuid_to_string(*post_id);
                let head = join3("Forbidden: user ", u.as_str(), " is not the author of post ");
                join2(head.as_str(), p.as_str())
            },
            DomainError::Validation(s) => join2("Validation error: ", s.as_str()),
            DomainError::Internal(s) => join2("Internal domain error: ", s.as_str()),
        }
    }
}

impl AppError {
    /// The message of the error.
    pub fn message(&self) -> (r: String)
        ensures
            r@ == app_error_text(*self),
    {
        match self {
            AppError::Domain(d) => d.message(),
            AppError::Database(s) => join2("Database error: ", s.as_str()),
            AppError::Hash(s) => join2("Hashing error: ", s.as_str()),
            AppError::Jwt(s) => join2("JWT error: ", s.as_str()),
            AppError::Config(s) => join2("Configuration error: ", s.as_str()),
            AppError::Internal(_) => owned("Internal server error"),
            AppError::Unauthorized => owned("unauthorized"),
        }
    }
}

impl User {
    /// A copy of the user, field for field.
    pub fn duplicate(&self) -> (r: User)
        ensures
            r == *self,
    {
        User {
            id: self.id,
            username: self.username.clone(),
            email: self.email.clone(),
            password_hash: self.password_hash.clone(),
            created_at: self.created_at,
        }
    }

    /// A new user with a fresh version 7 identifier and the current time. An empty
    /// username or email is refused, the username first.
    pub fn new(username: String, email: String, password_hash: String) -> (r: Result<User, DomainError>)
        ensures
            username@.len() == 0 ==> (r matches Err(DomainError::Validation(m)) && m@
                == "username is empty"@),
            username@.len() != 0 && email@.len() == 0 ==> (r matches Err(
                DomainError::Validation(m),
            ) && m@ == "email is empty"@),
            username@.len() != 0 && email@.len() != 0 ==> (r matches Ok(u) && u.username
                == username && u.email == email && u.password_hash == password_hash && is_v7(u.id)),
    {
        if username.as_str().is_empty() {
            return Err(DomainError::Validation(owned("username is empty")));
        }
        if email.as_str().is_empty() {
            return Err(DomainError::Validation(owned("email is empty")));
        }
        Ok(User { id: new_uuid_v7(), username, email, password_hash, created_at: clock_micros() })
    }
}

impl Post {
    /// A copy of the post, field for field.
    pub fn duplicate(&self) -> (r: Post)
        ensures
            r == *self,
    {
        Post {
            id: self.id,
            title: self.title.clone(),
            content: self.content.clone(),
            author_id: self.author_id,
            created_at: self.created_at,
            updated_at: self.updated_at,
        }
    }

    /// A new post created now: its two times are equal.
    pub fn new(id: u128, title: String, content: String, author_id: u128) -> (r: Post)
        ensures
            r.id == id,
            r.title == title,
            r.content == content,
            r.author_id == author_id,
            r.created_at == r.updated_at,
            micros_in_range(r.created_at as int),
    {
        let now = clock_micros();
        Post { id, title, content, author_id, created_at: now, updated_at: now }
    }
}

} // verus!
