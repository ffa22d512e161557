use blog::client::{
    authorization_value, endpoint, error_for_status_blog, paginated_from_reply, post_endpoint,
    register_response_from_reply, auth_response_from_reply, BlogClient, BlogClientError, Post,
    StatusVerdict, Transport,
};
use blog::config::{allowed_origins, cors_policy, health_response, stored_token, Cli, Commands, Config};
use blog::grpc::{ListPostsReply, LoginReply, ProtoPost, ProtoUser, RegisterReply};
use blog::presentation::{GrpcCode, GrpcStatus};

fn proto_post(created: i64) -> ProtoPost {
    ProtoPost { id: "1".into(), title: "t".into(), content: "c".into(), author_id: "a".into(), created_at: created, updated_at: 5 }
}

#[test]
fn grpc_statuses_become_client_errors() {
    let st = |code: GrpcCode| GrpcStatus { code, message: "m".into() };
    assert!(matches!(BlogClientError::from_status(st(GrpcCode::Unauthenticated)), BlogClientError::Unauthorized));
    assert!(matches!(BlogClientError::from_status(st(GrpcCode::NotFound)), BlogClientError::NotFound));
    assert!(matches!(BlogClientError::from_status(st(GrpcCode::InvalidArgument)), BlogClientError::InvalidRequest(m) if m == "m"));
    assert!(matches!(BlogClientError::from_status(st(GrpcCode::Internal)), BlogClientError::GrpcError(s) if s.code == GrpcCode::Internal));
}

#[test]
fn http_statuses_are_sorted() {
    assert!(matches!(error_for_status_blog(401), StatusVerdict::Fail(BlogClientError::Unauthorized)));
    assert!(matches!(error_for_status_blog(404), StatusVerdict::Fail(BlogClientError::NotFound)));
    assert!(matches!(error_for_status_blog(500), StatusVerdict::ReadBodyAsInvalidRequest));
    assert!(matches!(error_for_status_blog(302), StatusVerdict::ReadBodyAsInvalidRequest));
    assert!(matches!(error_for_status_blog(201), StatusVerdict::Success));
}

#[test]
fn endpoints_drop_trailing_slashes() {
    assert_eq!(endpoint("http://localhost:3000/api//", "/auth/login"), "http://localhost:3000/api/auth/login");
    assert_eq!(endpoint("http://h/api", "/posts"), "http://h/api/posts");
    assert_eq!(post_endpoint("http://h/api/", "42"), "http://h/api/posts/42");
    assert_eq!(authorization_value("tok"), "Bearer tok");
}

#[test]
fn message_posts_need_readable_times() {
    let p = Post::try_from_proto(proto_post(1_700_000_000)).unwrap();
    assert_eq!((p.created_at, p.updated_at, p.title.as_str()), (1_700_000_000, 5, "t"));
    assert!(Post::try_from_proto(proto_post(8210266876799)).is_ok());
    assert!(Post::try_from_proto(proto_post(-8334601228800)).is_ok());
    let e = Post::try_from_proto(proto_post(8210266876800)).unwrap_err();
    assert!(matches!(e, BlogClientError::InvalidResponse(m) if m == "Unrecognized datetime from timestamp"));
    assert!(Post::try_from_proto(proto_post(-8334601228801)).is_err());
    let page = paginated_from_reply(ListPostsReply { posts: vec![proto_post(1), proto_post(2)], total: 9, limit: 1, offset: 0 }).unwrap();
    assert_eq!((page.posts.len(), page.total), (2, 9));
    assert!(paginated_from_reply(ListPostsReply { posts: vec![proto_post(1), proto_post(i64::MAX)], total: 2, limit: 1, offset: 0 }).is_err());
}

#[test]
fn replies_are_read() {
    let u = ProtoUser { id: "1".into(), username: "ivan".into(), email: "e".into() };
    let r = register_response_from_reply(RegisterReply { token: "t".into(), user: Some(u) }).unwrap();
    assert_eq!((r.user.username.as_str(), r.token.as_str()), ("ivan", "t"));
    let e = register_response_from_reply(RegisterReply { token: "t".into(), user: None }).unwrap_err();
    assert!(matches!(e, BlogClientError::InvalidResponse(m) if m == "User not found"));
    assert_eq!(auth_response_from_reply(LoginReply { token: "x".into(), user: None }).access_token, "x");
}

#[test]
fn session_keeps_the_token() {
    let mut c = BlogClient::new(Transport::Http("h".into()));
    assert!(c.get_token().is_none());
    c.set_token("abc".into());
    assert_eq!(c.get_token().as_deref(), Some("abc"));
}

#[test]
fn cli_chooses_the_transport() {
    let cli = Cli { grpc: true, server: None, command: Commands::List { limit: 10, offset: 0 } };
    assert!(matches!(cli.transport(), Transport::Grpc(a) if a == "http://localhost:50051/api"));
    let cli = Cli { grpc: false, server: None, command: Commands::Get { id: "1".into() } };
    assert!(matches!(cli.transport(), Transport::Http(a) if a == "http://localhost:3000/api"));
    let cli = Cli { grpc: false, server: Some("http://x".into()), command: Commands::Delete { id: "1".into() } };
    assert!(matches!(cli.transport(), Transport::Http(a) if a == "http://x"));
    assert_eq!(stored_token(Some("  tok\n".into())).as_deref(), Some("tok"));
    assert!(stored_token(None).is_none());
}

#[test]
fn config_defaults_and_errors() {
    let missing = || Err::<String, String>("environment variable not found".into());
    let c = Config::from_vars(Ok("postgres://db".into()), missing(), missing(), missing(), Ok("s".into())).unwrap();
    assert_eq!((c.host.as_str(), c.port, c.grpc_port), ("127.0.0.1", 3000, 50051));
    let c = Config::from_vars(Ok("d".into()), Ok("0.0.0.0".into()), Ok("+8081".into()), Ok("1".into()), Ok("s".into())).unwrap();
    assert_eq!((c.host.as_str(), c.port, c.grpc_port), ("0.0.0.0", 8081, 1));
    assert!(Config::from_vars(missing(), missing(), missing(), missing(), Ok("s".into())).is_err());
    assert!(Config::from_vars(Ok("d".into()), missing(), Ok("70000".into()), missing(), Ok("s".into())).is_err());
    assert!(Config::from_vars(Ok("d".into()), missing(), Ok(" 80".into()), missing(), Ok("s".into())).is_err());
    assert!(Config::from_vars(Ok("d".into()), missing(), missing(), Ok("x".into()), Ok("s".into())).is_err());
    assert!(Config::from_vars(Ok("d".into()), missing(), missing(), missing(), missing()).is_err());
}

#[test]
fn cors_origins_are_split_and_trimmed() {
    assert_eq!(allowed_origins(Err("none".into())), vec!["http://localhost:8080".to_string()]);
    assert_eq!(
        allowed_origins(Ok(" http://a , http://b,".into())),
        vec!["http://a".to_string(), "http://b".to_string(), String::new()]
    );
    assert_eq!(health_response().status, "ok");
}

#[test]
fn cors_policy_is_the_servers() {
    let p = cors_policy(Err("none".into()));
    assert_eq!(p.origins, vec!["http://localhost:8080".to_string()]);
    assert_eq!(p.methods, vec!["GET", "POST", "PUT", "DELETE", "OPTIONS"]);
    assert!(p.any_header && p.credentials);
    assert_eq!(p.exposed_headers, vec!["X-Total-Count"]);
    assert_eq!(p.max_age, 3600);
}
