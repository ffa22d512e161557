use blog::domain::{AppError, DomainError};
use blog::grpc::{
    BlogServiceImpl, CreatePostRequest, DeletePostRequest, GetPostRequest, ListPostsRequest,
    LoginRequest, RegisterRequest, UpdatePostRequest,
};
use blog::presentation::{bearer_user_id, jwt_validator, map_app_error, user_id_of_claims, user_of_claims, GrpcCode};
use blog::security::Claims;
use blog::security::JwtService;
use blog::service::{AuthService, BlogService};
use blog::store::{MemoryPostRepository, MemoryUserRepository};

const ID1: &str = "00000000-0000-0000-0000-000000000001";
const ID2: &str = "00000000-0000-0000-0000-00000000000a";

#[test]
fn status_codes_of_errors() {
    let cases: Vec<(AppError, u16)> = vec![
        (AppError::Domain(DomainError::UserNotFound("x".into())), 404),
        (AppError::Domain(DomainError::UserAlreadyExists("x".into())), 409),
        (AppError::Domain(DomainError::InvalidCredentials), 401),
        (AppError::Domain(DomainError::PostNotFound(1)), 404),
        (AppError::Domain(DomainError::Forbidden { user_id: 1, post_id: 2 }), 403),
        (AppError::Domain(DomainError::Validation("x".into())), 400),
        (AppError::Domain(DomainError::Internal("x".into())), 500),
        (AppError::Database("x".into()), 500),
        (AppError::Hash("x".into()), 500),
        (AppError::Jwt("x".into()), 401),
        (AppError::Config("x".into()), 500),
        (AppError::Internal("x".into()), 500),
        (AppError::Unauthorized, 401),
    ];
    for (e, code) in cases {
        assert_eq!(e.status_code(), code, "{:?}", e);
        assert_eq!(e.error_response().status, code);
    }
}

#[test]
fn server_failures_are_not_disclosed() {
    for e in [
        AppError::Database("password=123".into()),
        AppError::Hash("salt".into()),
        AppError::Config("x".into()),
        AppError::Internal("stack".into()),
    ] {
        assert_eq!(e.error_response().error, "Internal server error");
    }
    let e = AppError::Domain(DomainError::Validation("password is empty".into()));
    assert_eq!(e.error_response().error, "Validation error: password is empty");
    let e = AppError::Domain(DomainError::PostNotFound(1));
    assert_eq!(e.error_response().error, format!("Post not found: {}", ID1));
    let e = AppError::Domain(DomainError::Forbidden { user_id: 10, post_id: 1 });
    assert_eq!(e.message(), format!("Forbidden: user {} is not the author of post {}", ID2, ID1));
    assert_eq!(AppError::Jwt("bad".into()).error_response().error, "JWT error: bad");
    assert_eq!(AppError::Unauthorized.error_response().error, "unauthorized");
    assert_eq!(AppError::Domain(DomainError::InvalidCredentials).message(), "Invalid credentials");
    assert_eq!(AppError::Domain(DomainError::UserNotFound("u".into())).message(), "User not found: u");
    assert_eq!(AppError::Domain(DomainError::UserAlreadyExists("u".into())).message(), "User already exists: u");
    assert_eq!(AppError::Domain(DomainError::Internal("i".into())).message(), "Internal domain error: i");
    assert_eq!(AppError::Database("d".into()).message(), "Database error: d");
    assert_eq!(AppError::Hash("h".into()).message(), "Hashing error: h");
    assert_eq!(AppError::Config("c".into()).message(), "Configuration error: c");
    assert_eq!(AppError::Internal("c".into()).message(), "Internal server error");
}

#[test]
fn grpc_statuses_of_errors() {
    let s = map_app_error(AppError::Domain(DomainError::UserNotFound("user x".into())));
    assert_eq!((s.code, s.message.as_str()), (GrpcCode::NotFound, "user x"));
    let s = map_app_error(AppError::Domain(DomainError::PostNotFound(1)));
    assert_eq!(s.code, GrpcCode::NotFound);
    assert_eq!(s.message, format!("Post not found: {}", ID1));
    let s = map_app_error(AppError::Domain(DomainError::UserAlreadyExists("ivan".into())));
    assert_eq!((s.code, s.message.as_str()), (GrpcCode::AlreadyExists, "User 'ivan' already exists"));
    let s = map_app_error(AppError::Domain(DomainError::InvalidCredentials));
    assert_eq!((s.code, s.message.as_str()), (GrpcCode::Unauthenticated, "Invalid username or password"));
    let s = map_app_error(AppError::Unauthorized);
    assert_eq!((s.code, s.message.as_str()), (GrpcCode::Unauthenticated, "Authentication required"));
    let s = map_app_error(AppError::Domain(DomainError::Validation("v".into())));
    assert_eq!((s.code, s.message.as_str()), (GrpcCode::InvalidArgument, "v"));
    let s = map_app_error(AppError::Domain(DomainError::Forbidden { user_id: 10, post_id: 1 }));
    assert_eq!(s.code, GrpcCode::PermissionDenied);
    assert_eq!(s.message, format!("User {} is not author of post {}", ID2, ID1));
    let s = map_app_error(AppError::Domain(DomainError::Internal("i".into())));
    assert_eq!((s.code, s.message.as_str()), (GrpcCode::Internal, "i"));
    let s = map_app_error(AppError::Database("d".into()));
    assert_eq!((s.code, s.message.as_str()), (GrpcCode::Internal, "Database error: d"));
    let s = map_app_error(AppError::Hash("h".into()));
    assert_eq!((s.code, s.message.as_str()), (GrpcCode::Internal, "Hashing error: h"));
    let s = map_app_error(AppError::Jwt("j".into()));
    assert_eq!((s.code, s.message.as_str()), (GrpcCode::Internal, "JWT error: j"));
    let s = map_app_error(AppError::Config("c".into()));
    assert_eq!((s.code, s.message.as_str()), (GrpcCode::Internal, "Config error: c"));
    let s = map_app_error(AppError::Internal("x".into()));
    assert_eq!((s.code, s.message.as_str()), (GrpcCode::Internal, "x"));
}

#[test]
fn http_validator_names_the_token_user() {
    let jwt = JwtService::new("secret");
    let t = jwt.generate_token(1, "ivan").unwrap();
    let u = jwt_validator(Some(&jwt), &t).unwrap();
    assert_eq!(u.id, 1);
    assert_eq!(u.username, "ivan");
    let e = jwt_validator(None, &t).unwrap_err();
    assert_eq!((e.status, e.message.as_str()), (500, "JwtService not found"));
    let e = jwt_validator(Some(&jwt), "garbage").unwrap_err();
    assert_eq!((e.status, e.message.as_str()), (401, "Invalid token"));
}

#[test]
fn grpc_bearer_is_checked() {
    let jwt = JwtService::new("secret");
    let t = jwt.generate_token(1, "ivan").unwrap();
    assert_eq!(bearer_user_id(&jwt, Some(Ok(format!("Bearer {}", t)))).unwrap(), 1);
    let s = bearer_user_id(&jwt, None).unwrap_err();
    assert_eq!((s.code, s.message.as_str()), (GrpcCode::Unauthenticated, "Missing authorization header"));
    let s = bearer_user_id(&jwt, Some(Ok(t.clone()))).unwrap_err();
    assert_eq!((s.code, s.message.as_str()), (GrpcCode::Unauthenticated, "Invalid authorization token"));
    let s = bearer_user_id(&jwt, Some(Err("bad header".into()))).unwrap_err();
    assert_eq!((s.code, s.message.as_str()), (GrpcCode::Unauthenticated, "bad header"));
    let s = bearer_user_id(&jwt, Some(Ok("Bearer nonsense".into()))).unwrap_err();
    assert_eq!(s.code, GrpcCode::Unauthenticated);
}

fn grpc() -> BlogServiceImpl {
    BlogServiceImpl::new(
        AuthService::new(MemoryUserRepository::new(), JwtService::new("secret")),
        BlogService::new(MemoryPostRepository::new()),
    )
}

#[test]
fn grpc_round_trip() {
    let mut svc = grpc();
    let reg = svc
        .register(RegisterRequest { username: "ivan".into(), email: "ivan@example.com".into(), password: "secret123".into() })
        .unwrap();
    let user = reg.user.clone().unwrap();
    assert_eq!(user.username, "ivan");
    assert_eq!(user.id.len(), 36);
    let login = svc.login(LoginRequest { username: "ivan".into(), password: "secret123".into() }).unwrap();
    assert_eq!(login.user.unwrap().id, user.id);
    let bad = svc.login(LoginRequest { username: "ivan".into(), password: "x".into() }).unwrap_err();
    assert_eq!(bad.code, GrpcCode::Unauthenticated);
    let auth = Some(Ok(format!("Bearer {}", reg.token)));
    let post = svc
        .create_post(auth.clone(), CreatePostRequest { title: "t".into(), content: "c".into() })
        .unwrap();
    assert_eq!(post.author_id, user.id);
    let got = svc.get_post(GetPostRequest { id: post.id.clone() }).unwrap();
    assert_eq!(got.title, "t");
    assert_eq!(got.created_at, post.created_at);
    let upd = svc
        .update_post(auth.clone(), UpdatePostRequest { id: post.id.clone(), title: None, content: Some("d".into()) })
        .unwrap();
    assert_eq!((upd.title.as_str(), upd.content.as_str()), ("t", "d"));
    let list = svc.list_posts(ListPostsRequest { limit: 0, offset: -3 }).unwrap();
    assert_eq!((list.total, list.limit, list.offset, list.posts.len()), (1, 0, -3, 1));
    assert!(svc.delete_post(auth.clone(), DeletePostRequest { id: post.id.clone() }).unwrap().success);
    let s = svc.get_post(GetPostRequest { id: post.id.clone() }).unwrap_err();
    assert_eq!(s.code, GrpcCode::NotFound);
    let s = svc.get_post(GetPostRequest { id: "not-a-uuid".into() }).unwrap_err();
    assert_eq!(s.code, GrpcCode::InvalidArgument);
}

#[test]
fn grpc_forbids_other_authors() {
    let mut svc = grpc();
    let a = svc
        .register(RegisterRequest { username: "a".into(), email: "a@x".into(), password: "p".into() })
        .unwrap();
    let b = svc
        .register(RegisterRequest { username: "b".into(), email: "b@x".into(), password: "p".into() })
        .unwrap();
    let post = svc
        .create_post(Some(Ok(format!("Bearer {}", a.token))), CreatePostRequest { title: "t".into(), content: "c".into() })
        .unwrap();
    let s = svc
        .update_post(Some(Ok(format!("Bearer {}", b.token))), UpdatePostRequest { id: post.id.clone(), title: Some("x".into()), content: None })
        .unwrap_err();
    assert_eq!(s.code, GrpcCode::PermissionDenied);
    let s = svc
        .delete_post(Some(Ok(format!("Bearer {}", b.token))), DeletePostRequest { id: post.id.clone() })
        .unwrap_err();
    assert_eq!(s.code, GrpcCode::PermissionDenied);
    let s = svc
        .create_post(None, CreatePostRequest { title: "t".into(), content: "c".into() })
        .unwrap_err();
    assert_eq!(s.message, "Missing authorization header");
    let s = svc
        .register(RegisterRequest { username: "a".into(), email: "z@x".into(), password: "p".into() })
        .unwrap_err();
    assert_eq!((s.code, s.message.as_str()), (GrpcCode::AlreadyExists, "User 'username already exists' already exists"));
}


#[test]
fn claims_name_their_user_only_with_an_identifier_subject() {
    let c = Claims { sub: ID1.into(), username: "ivan".into(), exp: 0 };
    let u = user_of_claims(c).unwrap();
    assert_eq!((u.id, u.username.as_str()), (1, "ivan"));
    let c = Claims { sub: "ivan".into(), username: "ivan".into(), exp: 0 };
    let e = user_of_claims(c).unwrap_err();
    assert_eq!((e.status, e.message.as_str()), (401, "Invalid token subject"));
}

#[test]
fn altered_tokens_are_refused_everywhere() {
    let jwt = JwtService::new("secret");
    let t = jwt.generate_token(1, "ivan").unwrap();
    let mut forged = t.clone();
    let last = forged.pop().unwrap();
    forged.push(if last == 'A' { 'B' } else { 'A' });
    assert!(jwt.verify_token(&forged).is_err());
    let e = jwt_validator(Some(&jwt), &forged).unwrap_err();
    assert_eq!((e.status, e.message.as_str()), (401, "Invalid token"));
    let other = JwtService::new("other").generate_token(1, "ivan").unwrap();
    let e = jwt_validator(Some(&jwt), &other).unwrap_err();
    assert_eq!(e.status, 401);
    assert_eq!(bearer_user_id(&jwt, Some(Ok(format!("Bearer {}", other)))).unwrap_err().code, GrpcCode::Unauthenticated);
}

#[test]
fn grpc_calls_for_a_known_user() {
    let mut svc = grpc();
    let post = svc.create_post_as(1, CreatePostRequest { title: "t".into(), content: "c".into() }).unwrap();
    assert_eq!(post.author_id, ID1);
    assert_eq!(&post.id[14..15], "7");
    let s = svc
        .update_post_as(2, UpdatePostRequest { id: post.id.clone(), title: Some("x".into()), content: None })
        .unwrap_err();
    assert_eq!(s.code, GrpcCode::PermissionDenied);
    let s = svc
        .update_post_as(1, UpdatePostRequest { id: "nope".into(), title: None, content: None })
        .unwrap_err();
    assert_eq!(s.code, GrpcCode::InvalidArgument);
    let s = svc.update_post_as(1, UpdatePostRequest { id: ID2.into(), title: None, content: None }).unwrap_err();
    assert_eq!((s.code, s.message.as_str()), (GrpcCode::NotFound, "Post not found: 00000000-0000-0000-0000-00000000000a"));
    let u = svc
        .update_post_as(1, UpdatePostRequest { id: post.id.clone(), title: Some("x".into()), content: None })
        .unwrap();
    assert_eq!((u.title.as_str(), u.content.as_str()), ("x", "c"));
    assert_eq!(svc.delete_post_as(2, DeletePostRequest { id: post.id.clone() }).unwrap_err().code, GrpcCode::PermissionDenied);
    assert!(svc.delete_post_as(1, DeletePostRequest { id: post.id.clone() }).unwrap().success);
    assert_eq!(svc.delete_post_as(1, DeletePostRequest { id: post.id.clone() }).unwrap_err().code, GrpcCode::NotFound);
}

#[test]
fn grpc_claims_name_their_user_only_with_an_identifier_subject() {
    let c = Claims { sub: ID2.into(), username: "ivan".into(), exp: 0 };
    assert_eq!(user_id_of_claims(&c).unwrap(), 10);
    let c = Claims { sub: "ivan".into(), username: "ivan".into(), exp: 0 };
    let s = user_id_of_claims(&c).unwrap_err();
    assert_eq!(s.code, GrpcCode::InvalidArgument);
    assert!(!s.message.is_empty());
}
