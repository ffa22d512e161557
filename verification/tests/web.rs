use blog::web::{
    auth_finished, change_done, delete_outcome, error_from_response, is_success_status,
    plan_request, post_form_submission, post_list, posts_fetched, posts_query, post_path,
    auth_form_step, auth_submission, post_form_submitted, short_author_id, AuthFormEvent, PostFormState, token_saved, update_done, ApiCall, ApiError, AppEffect, AppMsg, AppView,
    AuthResponse, AuthStep, BlogApp, FormEvent, HttpMethod, Post, PostListView, PostsListResponse,
    User,
};

fn user() -> User {
    User { id: "0190aaaa-0000-7000-8000-000000000001".into(), username: "ivan".into(), email: "i@x".into() }
}

fn post(id: &str, author: &str) -> Post {
    Post { id: id.into(), title: "t".into(), content: "c".into(), author_id: author.into(), created_at: 0, updated_at: 0 }
}

#[test]
fn api_error_messages() {
    assert_eq!(ApiError::Unauthorized.message(), "Не авторизован");
    assert_eq!(ApiError::Forbidden.message(), "Доступ запрещён");
    assert_eq!(ApiError::NotFound.message(), "Не найдено");
    assert_eq!(ApiError::Conflict.message(), "Конфликт (пользователь уже существует)");
    assert_eq!(ApiError::BadRequest("x".into()).message(), "Ошибка запроса: x");
    assert_eq!(ApiError::ServerError("y".into()).message(), "Ошибка сервера: y");
}

#[test]
fn requests_are_planned() {
    let p = plan_request("GET", "/posts", Some("ignored".into()), None).unwrap();
    assert_eq!(p.method, HttpMethod::Get);
    assert_eq!(p.url, "http://localhost:3000/api/posts");
    assert!(p.body.is_none());
    assert!(p.authorization.is_none());
    assert_eq!(p.content_type, "application/json");
    let p = plan_request("DELETE", "/posts/1", None, Some("tok")).unwrap();
    assert_eq!(p.body.as_deref(), Some(""));
    assert_eq!(p.authorization.as_deref(), Some("Bearer tok"));
    let p = plan_request("POST", "/auth/login", Some("{}".into()), None).unwrap();
    assert_eq!((p.method, p.body.as_deref()), (HttpMethod::Post, Some("{}")));
    assert!(matches!(plan_request("HEAD", "/", None, None), Err(ApiError::ServerError(m)) if m == "Unsupported method"));
    assert!(matches!(plan_request("PUT", "/posts/1", None, None), Ok(p) if p.method == HttpMethod::Put));
}

#[test]
fn failed_answers_become_errors() {
    assert!(is_success_status(200) && is_success_status(204) && !is_success_status(300) && !is_success_status(199));
    assert_eq!(error_from_response(401, "x".into()), ApiError::Unauthorized);
    assert_eq!(error_from_response(403, String::new()), ApiError::Forbidden);
    assert_eq!(error_from_response(404, String::new()), ApiError::NotFound);
    assert_eq!(error_from_response(409, String::new()), ApiError::Conflict);
    assert_eq!(error_from_response(400, "bad".into()), ApiError::BadRequest("bad".into()));
    assert_eq!(error_from_response(422, String::new()), ApiError::BadRequest("422".into()));
    assert_eq!(error_from_response(500, String::new()), ApiError::ServerError("500".into()));
    assert_eq!(error_from_response(302, "moved".into()), ApiError::ServerError("moved".into()));
    assert_eq!(delete_outcome(204), Ok(()));
    assert_eq!(delete_outcome(200), Err(ApiError::ServerError("Неожиданный ответ при удалении".into())));
    assert_eq!(posts_query(100, 0), "/posts?limit=100&offset=0");
    assert_eq!(posts_query(-1, 7), "/posts?limit=-1&offset=7");
    assert_eq!(post_path("abc"), "/posts/abc");
}

#[test]
fn app_starts_from_the_stored_token() {
    let app = BlogApp::create(Some("tok".into()));
    assert_eq!(app.token.as_deref(), Some("tok"));
    assert!(app.current_user.is_none() && app.posts.is_empty() && app.error.is_none());
    assert!(BlogApp::create(None).token.is_none());
}

#[test]
fn login_loads_posts_and_logout_clears_everything() {
    let mut app = BlogApp::create(None);
    let up = app.update(AppMsg::LoginSuccess(user()), Some("tok".into()));
    assert!(up.rerender);
    assert!(matches!(up.effects.as_slice(), [AppEffect::Send(AppMsg::LoadPosts)]));
    assert_eq!(app.token.as_deref(), Some("tok"));
    let up = app.update(AppMsg::LoadPosts, None);
    assert!(!up.rerender);
    assert!(matches!(up.effects.as_slice(), [AppEffect::Call(ApiCall::FetchPosts { limit: 100, offset: 0 })]));
    app.update(AppMsg::PostsLoaded(vec![post("1", "x")]), None);
    app.update(AppMsg::EditPost(post("1", "x")), None);
    assert_eq!(app.posts.len(), 1);
    assert!(app.editing_post.is_some());
    let up = app.update(AppMsg::Logout, None);
    assert!(matches!(up.effects.as_slice(), [AppEffect::RemoveStoredToken]));
    assert!(app.current_user.is_none() && app.token.is_none() && app.posts.is_empty() && app.editing_post.is_none());
    assert_eq!(app.success.as_deref(), Some("Вы вышли из системы"));
}

#[test]
fn changes_without_token_report_an_error() {
    let mut app = BlogApp::create(None);
    for msg in [
        AppMsg::CreatePost("t".into(), "c".into()),
        AppMsg::UpdatePost("1".into(), "t".into(), "c".into()),
        AppMsg::DeletePost("1".into()),
    ] {
        let up = app.update(msg, None);
        assert!(!up.rerender);
        assert!(matches!(up.effects.as_slice(), [AppEffect::Send(AppMsg::Error(m))] if m == "Не авторизован"));
    }
    let mut app = BlogApp::create(Some("tok".into()));
    let up = app.update(AppMsg::DeletePost("9".into()), None);
    assert!(matches!(up.effects.as_slice(), [AppEffect::Call(ApiCall::DeletePost { token, id })] if token == "tok" && id == "9"));
    let up = app.update(AppMsg::Error("boom".into()), None);
    assert!(up.rerender);
    assert_eq!(app.error.as_deref(), Some("boom"));
    app.update(AppMsg::ClearEditing, None);
    assert!(app.editing_post.is_none());
}

#[test]
fn follow_up_messages() {
    let m = posts_fetched(Ok(PostsListResponse { posts: vec![post("1", "a")], total: 1, limit: 100, offset: 0 }));
    assert!(matches!(m, AppMsg::PostsLoaded(p) if p.len() == 1));
    assert!(matches!(posts_fetched(Err(ApiError::NotFound)), AppMsg::Error(m) if m == "Не найдено"));
    assert!(matches!(change_done(None).as_slice(), [AppMsg::LoadPosts]));
    assert!(matches!(update_done(None).as_slice(), [AppMsg::LoadPosts, AppMsg::ClearEditing]));
    assert!(matches!(update_done(Some(ApiError::Forbidden)).as_slice(), [AppMsg::Error(m)] if m == "Доступ запрещён"));
}

#[test]
fn view_of_a_member() {
    let mut app = BlogApp::create(None);
    assert!(matches!(app.view_model(), AppView::Guest { error: None, success: None }));
    app.update(AppMsg::LoginSuccess(user()), Some("tok".into()));
    app.update(AppMsg::EditPost(post("7", "x")), None);
    match app.view_model() {
        AppView::Member { greeting, editing, current_user_id, .. } => {
            assert_eq!(greeting, "Добро пожаловать, ivan!");
            assert_eq!(editing.unwrap().post_id, "7");
            assert_eq!(current_user_id, user().id);
        }
        other => panic!("unexpected {:?}", other),
    }
}

#[test]
fn forms() {
    assert!(post_form_submission(true, "t", "c").is_none());
    assert!(post_form_submission(false, "  \t", "c").is_none());
    assert!(post_form_submission(false, "t", "\u{3000}").is_none());
    assert_eq!(post_form_submission(false, " t ", "c"), Some((" t ".to_string(), "c".to_string())));
    let step = auth_finished(Ok(AuthResponse { token: "tok".into(), user: user() }));
    assert!(matches!(step, AuthStep::SaveToken { token, .. } if token == "tok"));
    assert!(matches!(auth_finished(Err(ApiError::Conflict)), AuthStep::Fail(m) if m.starts_with("Конфликт")));
    assert!(matches!(token_saved(user(), Ok(())), FormEvent::Success(u) if u.username == "ivan"));
    assert!(matches!(token_saved(user(), Err("full".into())), FormEvent::Error(m) if m == "Ошибка сохранения токена: full"));
}

#[test]
fn post_list_marks_the_authors_posts() {
    assert!(matches!(post_list(&vec![], &None), PostListView::Empty(m) if m == "Нет постов. Будьте первым!"));
    let me = user().id;
    let posts = vec![post("1", &me), post("2", "short")];
    match post_list(&posts, &Some(me.clone())) {
        PostListView::Cards(cards) => {
            assert_eq!(cards.len(), 2);
            assert!(cards[0].is_author);
            assert_eq!(cards[0].author_label, "0190aaaa-0…");
            assert!(!cards[1].is_author);
            assert_eq!(cards[1].author_label, "short");
        }
        other => panic!("unexpected {:?}", other),
    }
    assert_eq!(short_author_id("0123456789abc"), "0123456789…");
}

#[test]
fn author_label_keeps_short_identifiers_whole() {
    assert_eq!(short_author_id(""), "");
    assert_eq!(short_author_id("abcdefgh"), "abcdefgh");
    assert_eq!(short_author_id("abcdefghi"), "abcdefghi");
    assert_eq!(short_author_id("abcdefghij"), "abcdefghij");
    assert_eq!(short_author_id("abcdefghijk"), "abcdefghij…");
    assert_eq!(short_author_id("пользователь-1"), "пользовате…");
    assert_eq!(short_author_id("ключ"), "ключ");
    let posts = vec![post("1", "abcdefgh")];
    match post_list(&posts, &None) {
        PostListView::Cards(cards) => assert_eq!(cards[0].author_label, "abcdefgh"),
        other => panic!("unexpected {:?}", other),
    }
}

#[test]
fn auth_forms_ignore_a_submit_while_loading() {
    assert!(auth_submission(false));
    assert!(!auth_submission(true));
}

#[test]
fn post_form_empties_after_a_submission() {
    let st = |t: &str, c: &str, l: bool| PostFormState { title: t.into(), content: c.into(), loading: l };
    let step = post_form_submitted(st("t", "c", false));
    assert_eq!(step.send, Some(("t".to_string(), "c".to_string())));
    assert_eq!((step.state.title.as_str(), step.state.content.as_str(), step.state.loading), ("", "", false));
    let step = post_form_submitted(st(" ", "c", false));
    assert!(step.send.is_none());
    assert_eq!((step.state.title.as_str(), step.state.content.as_str()), (" ", "c"));
    let step = post_form_submitted(st("t", "c", true));
    assert!(step.send.is_none() && step.state.loading);
}

#[test]
fn auth_form_loading_flag() {
    assert_eq!(auth_form_step(false, AuthFormEvent::Submit), (true, true));
    assert_eq!(auth_form_step(true, AuthFormEvent::Submit), (true, false));
    assert_eq!(auth_form_step(true, AuthFormEvent::Answered), (false, false));
}
