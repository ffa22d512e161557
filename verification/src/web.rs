use vstd::prelude::*;
use vstd::string::StringSliceAdditionalSpecFns;
use vstd::utf8::{encode_scalar, encode_utf8, is_char_boundary, pop_first_scalar};

use crate::text::{blank, decimal, i64_to_text, is_blank, join2, join3, owned, signed_decimal, u16_to_text};

verus! {

/// The address of the blog's HTTP API.
pub const API_BASE_URL: &'static str = "http://localhost:3000/api";

/// A user as the browser application keeps it.
#[derive(Clone, Debug, PartialEq)]
pub struct User {
    pub id: String,
    pub username: String,
    pub email: String,
}

/// A post as the browser application keeps it; times in whole seconds.
#[derive(Clone, Debug, PartialEq)]
pub struct Post {
    pub id: String,
    pub title: String,
    pub content: String,
    pub author_id: String,
    pub created_at: i64,
    pub updated_at: i64,
}

/// Answer to a login or a registration.
#[derive(Clone, Debug)]
pub struct AuthResponse {
    pub token: String,
    pub user: User,
}

/// Payload that creates a post.
#[derive(Clone, Debug)]
pub struct CreatePostRequest {
    pub title: String,
    pub content: String,
}

/// Payload that changes a post.
#[derive(Clone, Debug)]
pub struct UpdatePostRequest {
    pub title: String,
    pub content: String,
}

/// A page of posts as the API answers it.
#[derive(Clone, Debug)]
pub struct PostsListResponse {
    pub posts: Vec<Post>,
    pub total: i64,
    pub limit: i32,
    pub offset: i32,
}

/// Errors of calls to the API.
#[derive(Clone, Debug, PartialEq)]
pub enum ApiError {
    Unauthorized,
    Forbidden,
    NotFound,
    Conflict,
    BadRequest(String),
    ServerError(String),
}

/// The message that the application shows for an error.
pub open spec fn api_error_text(e: ApiError) -> Seq<char> {
    match e {
        ApiError::Unauthorized => "Не авторизован"@,
        ApiError::Forbidden => "Доступ запрещён"@,
        ApiError::NotFound => "Не найдено"@,
        ApiError::Conflict => "Конфликт (пользователь уже существует)"@,
        ApiError::BadRequest(m) => "Ошибка запроса: "@ + m@,
        ApiError::ServerError(m) => "Ошибка сервера: "@ + m@,
    }
}

impl ApiError {
    /// The message of the error.
    pub fn message(&self) -> (r: String)
        ensures
            r@ == api_error_text(*self),
    {
        match self {
            ApiError::Unauthorized => owned("Не авторизован"),
            ApiError::Forbidden => owned("Доступ запрещён"),
            ApiError::NotFound => owned("Не найдено"),
            ApiError::Conflict => owned("Конфликт (пользователь уже существует)"),
            ApiError::BadRequest(m) => join2("Ошибка запроса: ", m.as_str()),
            ApiError::ServerError(m) => join2("Ошибка сервера: ", m.as_str()),
        }
    }
}

impl User {
    /// A copy of the user, field for field.
    pub fn duplicate(&self) -> (r: User)
        ensures
            r == *self,
    {
        User { id: self.id.clone(), username: self.username.clone(), email: self.email.clone() }
    }
}

impl Post {
    /// A copy of the post, field for field.
    pub fn duplicate(&self) -> (r: Post)
        ensures
            r == *self,
    {
        Post {
            id: self.id.clone(),
            title: self.title.clone(),
            content: self.content.clone(),
            author_id: self.author_id.clone(),
            created_at: self.created_at,
            updated_at: self.updated_at,
        }
    }
}

/// A copy of a list of posts.
pub fn copy_posts(posts: &Vec<Post>) -> (r: Vec<Post>)
    ensures
        r@ == posts@,
{
    let mut out: Vec<Post> = Vec::new();
    let mut i: usize = 0;
    while i < posts.len()
        invariant
            i <= posts@.len(),
            out@ == posts@.subrange(0, i as int),
        decreases posts@.len() - i,
    {
        out.push(posts[i].duplicate());
        proof {
            assert(posts@.subrange(0, i + 1) == posts@.subrange(0, i as int).push(posts@[i as int]));
        }
        i = i + 1;
    }
    proof {
        assert(posts@.subrange(0, posts@.len() as int) == posts@);
    }
    out
}

// ---------------------------------------------------------------------------
// Requests
// ---------------------------------------------------------------------------

/// The methods that the application sends.
#[derive(Clone, Copy, Debug, PartialEq, Eq, Structural)]
pub enum HttpMethod {
    Get,
    Post,
    Put,
    Delete,
}

/// A request ready to be sent: method, full address, the `Authorization`
/// header if a token is given, the `Content-Type` header and the body; a GET
/// request has no body.
#[derive(Clone, Debug)]
pub struct RequestPlan {
    pub method: HttpMethod,
    pub url: String,
    pub authorization: Option<String>,
    pub content_type: String,
    pub body: Option<String>,
}

/// The method named by a text, where the application sends it.
pub open spec fn method_named(m: Seq<char>) -> Option<HttpMethod> {
    if m == "GET"@ {
        Some(HttpMethod::Get)
    } else if m == "POST"@ {
        Some(HttpMethod::Post)
    } else if m == "PUT"@ {
        Some(HttpMethod::Put)
    } else if m == "DELETE"@ {
        Some(HttpMethod::Delete)
    } else {
        None
    }
}

fn method_of(method: &str) -> (r: Option<HttpMethod>)
    ensures
        r == method_named(method@),
{
    let m = owned(method);
    if m == owned("GET") {
        Some(HttpMethod::Get)
    } else if m == owned("POST") {
        Some(HttpMethod::Post)
    } else if m == owned("PUT") {
        Some(HttpMethod::Put)
    } else if m == owned("DELETE") {
        Some(HttpMethod::Delete)
    } else {
        None
    }
}

/// Prepares a call to the API: the address is the API's base address and the
/// path; a method other than GET, POST, PUT and DELETE is refused; a token
/// goes into a bearer `Authorization` header; the content type is JSON; every
/// method but GET carries the body, empty if none is given.
pub fn plan_request(method: &str, url: &str, body: Option<String>, token: Option<&str>) -> (r: Result<RequestPlan, ApiError>)
    ensures
        method_named(method@) is None ==> (r matches Err(ApiError::ServerError(m)) && m@
            == "Unsupported method"@),
        method_named(method@) matches Some(mth) ==> (r matches Ok(plan) && plan.method == mth
            && plan.url@ == API_BASE_URL@ + url@ && plan.content_type@ == "application/json"@
            && match token {
            Some(t) => plan.authorization matches Some(a) && a@ == "Bearer "@ + t@,
            None => plan.authorization is None,
        } && match mth {
            HttpMethod::Get => plan.body is None,
            _ => plan.body matches Some(b) && b@ == match body {
                Some(x) => x@,
                None => Seq::<char>::empty(),
            },
        }),
{
    let full_url = join2(API_BASE_URL, url);
    let mth = match method_of(method) {
        Some(m) => m,
        None => {
            return Err(ApiError::ServerError(owned("Unsupported method")));
        },
    };
    let authorization = match token {
        Some(t) => Some(join2("Bearer ", t)),
        None => None,
    };
    let body = match mth {
        HttpMethod::Get => None,
        _ => match body {
            Some(b) => Some(b),
            None => Some(String::new()),
        },
    };
    Ok(RequestPlan { method: mth, url: full_url, authorization, content_type: owned("application/json"), body })
}

/// Whether a status is a success: 200 to 299.
pub fn is_success_status(status: u16) -> (r: bool)
    ensures
        r == (200 <= status < 300),
{
    200 <= status && status < 300
}

/// The error for a failed answer: 401, 403, 404 and 409 have errors of their
/// own; other client errors (400–499) are bad requests and the rest server
/// errors, both with the body's text, or the status number where the body is
/// empty.
pub fn error_from_response(status: u16, text: String) -> (r: ApiError)
    requires
        !(200 <= status < 300),
    ensures
        status == 401 ==> r == ApiError::Unauthorized,
        status == 403 ==> r == ApiError::Forbidden,
        status == 404 ==> r == ApiError::NotFound,
        status == 409 ==> r == ApiError::Conflict,
        status != 401 && status != 403 && status != 404 && status != 409 && 400 <= status < 500 ==> (
        r matches ApiError::BadRequest(m) && m@ == response_text(status, text@)),
        status != 401 && status != 403 && status != 404 && status != 409 && !(400 <= status < 500)
            ==> (r matches ApiError::ServerError(m) && m@ == response_text(status, text@)),
{
    let err_msg = if !text.as_str().is_empty() {
        text
    } else {
        u16_to_text(status)
    };
    if status == 401 {
        ApiError::Unauthorized
    } else if status == 403 {
        ApiError::Forbidden
    } else if status == 404 {
        ApiError::NotFound
    } else if status == 409 {
        ApiError::Conflict
    } else if status >= 400 && status < 500 {
        ApiError::BadRequest(err_msg)
    } else {
        ApiError::ServerError(err_msg)
    }
}

/// The text of a failed answer: its body, or the status number where the
/// body is empty.
pub open spec fn response_text(status: u16, text: Seq<char>) -> Seq<char> {
    if text.len() != 0 {
        text
    } else {
        decimal(status as nat)
    }
}

/// The path of a page of posts.
pub fn posts_query(limit: i64, offset: i64) -> (r: String)
    ensures
        r@ == "/posts?limit="@ + signed_decimal(limit as int) + "&offset="@ + signed_decimal(
            offset as int,
        ),
{
    let l = i64_to_text(limit);
    let o = i64_to_text(offset);
    let head = join3("/posts?limit=", l.as_str(), "&offset=");
    join2(head.as_str(), o.as_str())
}

/// The path of a post.
pub fn post_path(post_id: &str) -> (r: String)
    ensures
        r@ == "/posts/"@ + post_id@,
{
    join2("/posts/", post_id)
}

/// The outcome of a deletion: only the status 204 is a success.
pub fn delete_outcome(status: u16) -> (r: Result<(), ApiError>)
    ensures
        status == 204 ==> r is Ok,
        status != 204 ==> (r matches Err(ApiError::ServerError(m)) && m@
            == "Неожиданный ответ при удалении"@),
{
    if status == 204 {
        Ok(())
    } else {
        Err(ApiError::ServerError(owned("Неожиданный ответ при удалении")))
    }
}

// ---------------------------------------------------------------------------
// The application
// ---------------------------------------------------------------------------

/// What the application knows: the user, the token, the posts, the post being
/// edited and the last error or success message.
#[derive(Debug)]
pub struct BlogApp {
    pub current_user: Option<User>,
    pub token: Option<String>,
    pub posts: Vec<Post>,
    pub editing_post: Option<Post>,
    pub error: Option<String>,
    pub success: Option<String>,
}

/// The messages that drive the application.
#[derive(Clone, Debug)]
pub enum AppMsg {
    LoginSuccess(User),
    RegisterSuccess(User),
    Logout,
    LoadPosts,
    PostsLoaded(Vec<Post>),
    CreatePost(String, String),
    UpdatePost(String, String, String),
    DeletePost(String),
    EditPost(Post),
    ClearEditing,
    Error(String),
}

/// A call to the API that the application asks for.
#[derive(Clone, Debug)]
pub enum ApiCall {
    FetchPosts { limit: i64, offset: i64 },
    CreatePost { token: String, title: String, content: String },
    UpdatePost { token: String, id: String, title: String, content: String },
    DeletePost { token: String, id: String },
}

/// Work that the application asks its host to do.
#[derive(Clone, Debug)]
pub enum AppEffect {
    /// Deliver a message to the application.
    Send(AppMsg),
    /// Forget the token kept in the browser's storage.
    RemoveStoredToken,
    /// Call the API; its outcome comes back as messages.
    Call(ApiCall),
}

/// The outcome of a message: whether to draw again, and the work to do.
#[derive(Clone, Debug)]
pub struct AppUpdate {
    pub rerender: bool,
    pub effects: Vec<AppEffect>,
}

/// Whether two states hold the same posts and the same editing post.
pub open spec fn same_posts(a: &BlogApp, b: &BlogApp) -> bool {
    a.posts@ == b.posts@ && a.editing_post == b.editing_post
}

/// The message shown when a change is asked for without a token.
pub open spec fn not_authorized_text() -> Seq<char> {
    "Не авторизован"@
}

/// The work that a change of posts asks for: the call with the token, or,
/// without one, an error message.
pub open spec fn change_effects(token: Option<String>, call: spec_fn(String) -> ApiCall, effects: Seq<AppEffect>) -> bool {
    match token {
        Some(t) => effects == seq![AppEffect::Call(call(t))],
        None => effects.len() == 1 && (effects[0] matches AppEffect::Send(AppMsg::Error(m)) && m@
            == not_authorized_text()),
    }
}

fn not_authorized() -> (r: Vec<AppEffect>)
    ensures
        r@.len() == 1,
        r@[0] matches AppEffect::Send(AppMsg::Error(m)) && m@ == not_authorized_text(),
{
    let mut v: Vec<AppEffect> = Vec::new();
    v.push(AppEffect::Send(AppMsg::Error(owned("Не авторизован"))));
    v
}

fn one_effect(e: AppEffect) -> (r: Vec<AppEffect>)
    ensures
        r@ == seq![e],
{
    let mut v: Vec<AppEffect> = Vec::new();
    v.push(e);
    v
}

impl BlogApp {
    /// The application as it starts: the token found in the browser's
    /// storage, if any, and nothing else.
    pub fn create(stored_token: Option<String>) -> (r: BlogApp)
        ensures
            r.current_user is None,
            r.token == stored_token,
            r.posts@.len() == 0,
            r.editing_post is None,
            r.error is None,
            r.success is None,
    {
        BlogApp {
            current_user: None,
            token: stored_token,
            posts: Vec::new(),
            editing_post: None,
            error: None,
            success: None,
        }
    }

    /// Handles a message. `stored_token` is the token that the browser's
    /// storage holds now; it is read on a login or a registration.
    pub fn update(&mut self, msg: AppMsg, stored_token: Option<String>) -> (r: AppUpdate)
        ensures
            match msg {
                AppMsg::LoginSuccess(u) | AppMsg::RegisterSuccess(u) => final(self).current_user
                    == Some(u) && final(self).token == stored_token && final(self).error is None
                    && final(self).success == old(self).success && same_posts(final(self), old(self))
                    && r.rerender && r.effects@ == seq![AppEffect::Send(AppMsg::LoadPosts)],
                AppMsg::Logout => final(self).current_user is None && final(self).token is None
                    && final(self).posts@.len() == 0 && final(self).editing_post is None && final(self).error is None && (final(self).success matches Some(m) && m@
                    == "Вы вышли из системы"@) && r.rerender && r.effects@ == seq![
                    AppEffect::RemoveStoredToken,
                ],
                AppMsg::LoadPosts => *final(self) == *old(self) && !r.rerender && r.effects@ == seq![
                    AppEffect::Call(ApiCall::FetchPosts { limit: 100, offset: 0 }),
                ],
                AppMsg::PostsLoaded(posts) => final(self).posts@ == posts@ && final(self).error is None
                    && final(self).current_user == old(self).current_user && final(self).token == old(self).token && final(self).editing_post == old(self).editing_post && final(self).success
                    == old(self).success && r.rerender && r.effects@.len() == 0,
                AppMsg::CreatePost(title, content) => *final(self) == *old(self) && !r.rerender
                    && change_effects(
                    old(self).token,
                    |t: String| ApiCall::CreatePost { token: t, title, content },
                    r.effects@,
                ),
                AppMsg::UpdatePost(id, title, content) => *final(self) == *old(self) && !r.rerender
                    && change_effects(
                    old(self).token,
                    |t: String| ApiCall::UpdatePost { token: t, id, title, content },
                    r.effects@,
                ),
                AppMsg::DeletePost(id) => *final(self) == *old(self) && !r.rerender && change_effects(
                    old(self).token,
                    |t: String| ApiCall::DeletePost { token: t, id },
                    r.effects@,
                ),
                AppMsg::EditPost(p) => final(self).editing_post == Some(p) && final(self).posts@ == old(self).posts@ && final(self).current_user == old(self).current_user && final(self).token
                    == old(self).token && final(self).error == old(self).error && final(self).success
                    == old(self).success && r.rerender && r.effects@.len() == 0,
                AppMsg::ClearEditing => final(self).editing_post is None && final(self).posts@ == old(self).posts@ && final(self).current_user == old(self).current_user && final(self).token
                    == old(self).token && final(self).error == old(self).error && final(self).success
                    == old(self).success && r.rerender && r.effects@.len() == 0,
                AppMsg::Error(e) => final(self).error == Some(e) && final(self).success is None
                    && final(self).current_user == old(self).current_user && final(self).token == old(self).token && same_posts(final(self), old(self)) && r.rerender && r.effects@.len() == 0,
            },
    {
        match msg {
            AppMsg::LoginSuccess(user) | AppMsg::RegisterSuccess(user) => {
                self.current_user = Some(user);
                self.token = stored_token;
                self.error = None;
                AppUpdate { rerender: true, effects: one_effect(AppEffect::Send(AppMsg::LoadPosts)) }
            },
            AppMsg::Logout => {
                self.current_user = None;
                self.token = None;
                self.posts = Vec::new();
                self.editing_post = None;
                self.error = None;
                self.success = Some(owned("Вы вышли из системы"));
                AppUpdate { rerender: true, effects: one_effect(AppEffect::RemoveStoredToken) }
            },
            AppMsg::LoadPosts => AppUpdate {
                rerender: false,
                effects: one_effect(AppEffect::Call(ApiCall::FetchPosts { limit: 100, offset: 0 })),
            },
            AppMsg::PostsLoaded(posts) => {
                self.posts = posts;
                self.error = None;
                AppUpdate { rerender: true, effects: Vec::new() }
            },
            AppMsg::CreatePost(title, content) => {
                let effects = match &self.token {
                    Some(t) => one_effect(
                        AppEffect::Call(ApiCall::CreatePost { token: t.clone(), title, content }),
                    ),
                    None => not_authorized(),
                };
                AppUpdate { rerender: false, effects }
            },
            AppMsg::UpdatePost(id, title, content) => {
                let effects = match &self.token {
                    Some(t) => one_effect(
                        AppEffect::Call(ApiCall::UpdatePost { token: t.clone(), id, title, content }),
                    ),
                    None => not_authorized(),
                };
                AppUpdate { rerender: false, effects }
            },
            AppMsg::DeletePost(id) => {
                let effects = match &self.token {
                    Some(t) => one_effect(AppEffect::Call(ApiCall::DeletePost { token: t.clone(), id })),
                    None => not_authorized(),
                };
                AppUpdate { rerender: false, effects }
            },
            AppMsg::EditPost(post) => {
                self.editing_post = Some(post);
                AppUpdate { rerender: true, effects: Vec::new() }
            },
            AppMsg::ClearEditing => {
                self.editing_post = None;
                AppUpdate { rerender: true, effects: Vec::new() }
            },
            AppMsg::Error(err) => {
                self.error = Some(err);
                self.success = None;
                AppUpdate { rerender: true, effects: Vec::new() }
            },
        }
    }
}

/// The message that a fetched page of posts brings.
pub fn posts_fetched(outcome: Result<PostsListResponse, ApiError>) -> (r: AppMsg)
    ensures
        match outcome {
            Ok(resp) => r matches AppMsg::PostsLoaded(p) && p@ == resp.posts@,
            Err(e) => r matches AppMsg::Error(m) && m@ == api_error_text(e),
        },
{
    match outcome {
        Ok(resp) => AppMsg::PostsLoaded(resp.posts),
        Err(e) => AppMsg::Error(e.message()),
    }
}

/// The messages that the outcome of a creation or a deletion brings: the
/// posts are loaded again, or the error is shown.
pub fn change_done(failure: Option<ApiError>) -> (r: Vec<AppMsg>)
    ensures
        match failure {
            None => r@.len() == 1 && r@[0] is LoadPosts,
            Some(e) => r@.len() == 1 && (r@[0] matches AppMsg::Error(m) && m@ == api_error_text(e)),
        },
{
    let mut v: Vec<AppMsg> = Vec::new();
    match failure {
        None => v.push(AppMsg::LoadPosts),
        Some(e) => v.push(AppMsg::Error(e.message())),
    }
    v
}

/// The messages that the outcome of an update brings: the posts are loaded
/// again and the editing ends, or the error is shown.
pub fn update_done(failure: Option<ApiError>) -> (r: Vec<AppMsg>)
    ensures
        match failure {
            None => r@.len() == 2 && r@[0] is LoadPosts && r@[1] is ClearEditing,
            Some(e) => r@.len() == 1 && (r@[0] matches AppMsg::Error(m) && m@ == api_error_text(e)),
        },
{
    let mut v: Vec<AppMsg> = Vec::new();
    match failure {
        None => {
            v.push(AppMsg::LoadPosts);
            v.push(AppMsg::ClearEditing);
        },
        Some(e) => v.push(AppMsg::Error(e.message())),
    }
    v
}

// ---------------------------------------------------------------------------
// Views
// ---------------------------------------------------------------------------

/// The form that edits a post, filled with its fields.
#[derive(Clone, Debug)]
pub struct EditingForm {
    pub post_id: String,
    pub title: String,
    pub content: String,
}

/// What the application shows: for a visitor, the login and registration
/// forms; for a user, the greeting, the form that creates a post, the editing
/// form if a post is being edited, and the posts.
#[derive(Clone, Debug)]
pub enum AppView {
    Guest { error: Option<String>, success: Option<String> },
    Member {
        greeting: String,
        error: Option<String>,
        success: Option<String>,
        editing: Option<EditingForm>,
        posts: Vec<Post>,
        current_user_id: String,
    },
}

fn copy_text(t: &Option<String>) -> (r: Option<String>)
    ensures
        r == *t,
{
    match t {
        Some(s) => Some(s.clone()),
        None => None,
    }
}

impl BlogApp {
    /// What the application shows for its state.
    pub fn view_model(&self) -> (r: AppView)
        ensures
            self.current_user is None ==> r == (AppView::Guest {
                error: self.error,
                success: self.success,
            }),
            self.current_user matches Some(u) ==> (r matches AppView::Member {
                greeting,
                error,
                success,
                editing,
                posts,
                current_user_id,
            } && greeting@ == "Добро пожаловать, "@ + u.username@ + "!"@ && error == self.error
                && success == self.success && posts@ == self.posts@ && current_user_id == u.id
                && match self.editing_post {
                Some(p) => editing matches Some(f) && f.post_id == p.id && f.title == p.title
                    && f.content == p.content,
                None => editing is None,
            }),
    {
        match &self.current_user {
            None => AppView::Guest { error: copy_text(&self.error), success: copy_text(&self.success) },
            Some(user) => {
                let greeting = join3("Добро пожаловать, ", user.username.as_str(), "!");
                let editing = match &self.editing_post {
                    Some(p) => Some(
                        EditingForm {
                            post_id: p.id.clone(),
                            title: p.title.clone(),
                            content: p.content.clone(),
                        },
                    ),
                    None => None,
                };
                AppView::Member {
                    greeting,
                    error: copy_text(&self.error),
                    success: copy_text(&self.success),
                    editing,
                    posts: copy_posts(&self.posts),
                    current_user_id: user.id.clone(),
                }
            },
        }
    }
}

/// What a submitted post form sends: nothing while a submission is under way
/// or when the title or the content is blank; else the two texts.
pub fn post_form_submission(loading: bool, title: &str, content: &str) -> (r: Option<(String, String)>)
    ensures
        (r is Some) == (!loading && !blank(title@) && !blank(content@)),
        r matches Some((t, c)) ==> t@ == title@ && c@ == content@,
{
    if loading {
        return None;
    }
    if is_blank(title) || is_blank(content) {
        return None;
    }
    Some((owned(title), owned(content)))
}

/// The state of the form that writes a post: its two fields and whether a
/// submission is under way.
#[derive(Clone, Debug)]
pub struct PostFormState {
    pub title: String,
    pub content: String,
    pub loading: bool,
}

/// What a submission of the post form does: the texts it sends, if any, and
/// the form's state afterwards.
#[derive(Clone, Debug)]
pub struct PostFormStep {
    pub send: Option<(String, String)>,
    pub state: PostFormState,
}

/// Submits the post form: nothing happens while a submission is under way or
/// when the title or the content is blank; else the two texts are sent and
/// the form is emptied, with no submission under way.
pub fn post_form_submitted(state: PostFormState) -> (r: PostFormStep)
    ensures
        (r.send is Some) == (!state.loading && !blank(state.title@) && !blank(state.content@)),
        r.send matches Some((t, c)) ==> t@ == state.title@ && c@ == state.content@ && r.state.title@.len()
            == 0 && r.state.content@.len() == 0 && !r.state.loading,
        r.send is None ==> r.state == state,
{
    match post_form_submission(state.loading, state.title.as_str(), state.content.as_str()) {
        Some(texts) => PostFormStep {
            send: Some(texts),
            state: PostFormState { title: String::new(), content: String::new(), loading: false },
        },
        None => PostFormStep { send: None, state },
    }
}

/// What happens to a login or registration form.
#[derive(Clone, Copy, Debug)]
pub enum AuthFormEvent {
    /// The form is submitted.
    Submit,
    /// The request it sent has been answered.
    Answered,
}

/// Whether a login or registration form is submitting, after an event, and
/// whether the event sends its request: a submission is ignored while one is
/// under way, else it starts one and sends; an answer ends it.
pub fn auth_form_step(loading: bool, event: AuthFormEvent) -> (r: (bool, bool))
    ensures
        event is Submit ==> r == (true, !loading),
        event is Answered ==> r == (false, false),
{
    match event {
        AuthFormEvent::Submit => (true, auth_submission(loading)),
        AuthFormEvent::Answered => (false, false),
    }
}

/// Whether a submitted login or registration form sends its request: not
/// while a submission is under way.
pub fn auth_submission(loading: bool) -> (r: bool)
    ensures
        r == !loading,
{
    !loading
}

/// The step after a login or a registration returned.
#[derive(Clone, Debug)]
pub enum AuthStep {
    /// Keep the token in the browser's storage, then report the user.
    SaveToken { token: String, user: User },
    /// Report the error.
    Fail(String),
}

/// What follows the answer to a login or a registration.
pub fn auth_finished(outcome: Result<AuthResponse, ApiError>) -> (r: AuthStep)
    ensures
        match outcome {
            Ok(resp) => r == (AuthStep::SaveToken { token: resp.token, user: resp.user }),
            Err(e) => r matches AuthStep::Fail(m) && m@ == api_error_text(e),
        },
{
    match outcome {
        Ok(resp) => AuthStep::SaveToken { token: resp.token, user: resp.user },
        Err(e) => AuthStep::Fail(e.message()),
    }
}

/// What a login or registration form reports at the end.
#[derive(Clone, Debug)]
pub enum FormEvent {
    Success(User),
    Error(String),
}

/// The report once the token was kept, or could not be.
pub fn token_saved(user: User, saved: Result<(), String>) -> (r: FormEvent)
    ensures
        match saved {
            Ok(()) => r == FormEvent::Success(user),
            Err(e) => r matches FormEvent::Error(m) && m@ == "Ошибка сохранения токена: "@ + e@,
        },
{
    match saved {
        Ok(()) => FormEvent::Success(user),
        Err(e) => FormEvent::Error(join2("Ошибка сохранения токена: ", e.as_str())),
    }
}

/// A post as the list shows it.
#[derive(Clone, Debug)]
pub struct PostCard {
    pub id: String,
    pub title: String,
    pub content: String,
    pub author_label: String,
    pub is_author: bool,
}

/// The list of posts as shown: a message when there is none.
#[derive(Clone, Debug)]
pub enum PostListView {
    Empty(String),
    Cards(Vec<PostCard>),
}

/// The label of an author: the identifier itself where it has at most ten
/// characters, else its first ten characters and an ellipsis.
pub open spec fn author_label(author_id: Seq<char>) -> Seq<char> {
    if author_id.len() <= 10 {
        author_id
    } else {
        author_id.take(10) + "…"@
    }
}

/// The encoding of two texts one after the other is the encodings one after
/// the other, and the first one ends at a character boundary.
proof fn lemma_encode_concat(a: Seq<char>, b: Seq<char>)
    ensures
        encode_utf8(a + b) == encode_utf8(a) + encode_utf8(b),
        is_char_boundary(encode_utf8(a + b), encode_utf8(a).len() as int),
    decreases a.len(),
{
    vstd::utf8::encode_utf8_valid_utf8(a + b);
    if a.len() == 0 {
        assert(a + b =~= b);
    } else {
        let rest = a.drop_first();
        lemma_encode_concat(rest, b);
        assert((a + b).drop_first() =~= rest + b);
        assert((a + b)[0] == a[0]);
        let bytes = encode_utf8(a + b);
        vstd::utf8::encode_utf8_first_scalar(a + b);
        assert(bytes == encode_scalar(a[0] as u32) + encode_utf8(rest + b));
        assert(encode_utf8(a) == encode_scalar(a[0] as u32) + encode_utf8(rest));
        assert(bytes =~= encode_utf8(a) + encode_utf8(b));
        assert(pop_first_scalar(bytes) =~= encode_utf8(rest + b));
        vstd::utf8::encode_utf8_valid_utf8(rest + b);
    }
}

/// The number of bytes of a character in UTF-8.
fn utf8_width(c: char) -> (r: usize)
    ensures
        r == encode_scalar(c as u32).len(),
        1 <= r <= 4,
{
    proof {
        vstd::utf8::char_is_scalar(c);
    }
    if c <= '\u{7f}' {
        1
    } else if c <= '\u{7ff}' {
        2
    } else if c <= '\u{ffff}' {
        3
    } else {
        4
    }
}

/// Shortens an author identifier for display.
pub fn short_author_id(author_id: &str) -> (r: String)
    ensures
        r@ == author_label(author_id@),
{
    let n = author_id.unicode_len();
    if n <= 10 {
        return owned(author_id);
    }
    let ghost s = author_id@;
    let mut bytes: usize = 0;
    let mut i: usize = 0;
    while i < 10
        invariant
            n == s.len(),
            n > 10,
            s == author_id@,
            i <= 10,
            bytes == encode_utf8(s.take(i as int)).len(),
            bytes <= 4 * i,
        decreases 10 - i,
    {
        let w = utf8_width(author_id.get_char(i));
        proof {
            assert(s.take(i + 1) =~= s.take(i as int) + seq![s[i as int]]);
            lemma_encode_concat(s.take(i as int), seq![s[i as int]]);
            assert(seq![s[i as int]].drop_first() =~= Seq::<char>::empty());
            assert(encode_utf8(Seq::<char>::empty()) =~= Seq::<u8>::empty());
            assert(encode_utf8(seq![s[i as int]]) =~= encode_scalar(s[i as int] as u32) + encode_utf8(
                Seq::<char>::empty(),
            ));
            assert(encode_utf8(seq![s[i as int]]) =~= encode_scalar(s[i as int] as u32));
        }
        bytes = bytes + w;
        i = i + 1;
    }
    proof {
        assert(s =~= s.take(10) + s.skip(10));
        lemma_encode_concat(s.take(10), s.skip(10));
        assert(author_id.spec_bytes() == encode_utf8(s));
    }
    let (head, _) = author_id.split_at(bytes);
    proof {
        vstd::utf8::encode_utf8_decode_utf8(head@);
        vstd::utf8::encode_utf8_decode_utf8(s.take(10));
        assert(encode_utf8(head@) =~= encode_utf8(s.take(10)));
    }
    join2(head, "…")
}

/// Whether a card shows the post for the current user.
pub open spec fn card_of(c: PostCard, p: Post, current_user_id: Option<String>) -> bool {
    &&& c.id == p.id
    &&& c.title == p.title
    &&& c.content == p.content
    &&& c.author_label@ == author_label(p.author_id@)
    &&& c.is_author == (current_user_id matches Some(u) && u@ == p.author_id@)
}

/// The list of posts for the current user: each with its shortened author
/// and whether the user wrote it, so that only its author edits or deletes it.
pub fn post_list(posts: &Vec<Post>, current_user_id: &Option<String>) -> (r: PostListView)
    ensures
        posts@.len() == 0 ==> (r matches PostListView::Empty(m) && m@ == "Нет постов. Будьте первым!"@),
        posts@.len() != 0 ==> (r matches PostListView::Cards(cards) && cards@.len() == posts@.len()
            && forall|i: int| 0 <= i < posts@.len() ==> card_of(#[trigger] cards@[i], posts@[i], *current_user_id)),
{
    if posts.len() == 0 {
        return PostListView::Empty(owned("Нет постов. Будьте первым!"));
    }
    let mut cards: Vec<PostCard> = Vec::new();
    let mut i: usize = 0;
    while i < posts.len()
        invariant
            i <= posts@.len(),
            cards@.len() == i,
            forall|k: int| 0 <= k < i ==> card_of(#[trigger] cards@[k], posts@[k], *current_user_id),
        decreases posts@.len() - i,
    {
        let p = &posts[i];
        let is_author = match current_user_id {
            Some(u) => *u == p.author_id,
            None => false,
        };
        let label = short_author_id(p.author_id.as_str());
        cards.push(
            PostCard {
                id: p.id.clone(),
                title: p.title.clone(),
                content: p.content.clone(),
                author_label: label,
                is_author,
            },
        );
        i = i + 1;
    }
    PostListView::Cards(cards)
}

} // verus!
