use blog::domain::DomainError;
use blog::grpc::{proto_user, GetPostRequest};
use blog::ids::micros_to_secs;

#[test]
fn identifiers_print_hyphenated_and_parse_back() {
    let id: u128 = 0x0190_aaaa_bbbb_7ccc_8ddd_eeee_ffff_0001;
    let u = blog::domain::User {
        id,
        username: "u".into(),
        email: "e".into(),
        password_hash: String::new(),
        created_at: 0,
    };
    let t = proto_user(u).id;
    assert_eq!(t, "0190aaaa-bbbb-7ccc-8ddd-eeeeffff0001");
    assert_eq!(DomainError::PostNotFound(255).message(), "Post not found: 00000000-0000-0000-0000-0000000000ff");
    let jwt = blog::security::JwtService::new("k");
    let token = jwt.generate_token(id, "u").unwrap();
    assert_eq!(jwt.verify_token(&token).unwrap().sub, t);
    assert_eq!(blog::presentation::jwt_validator(Some(&jwt), &token).unwrap().id, id);
}

#[test]
fn microseconds_round_down_to_seconds() {
    assert_eq!(micros_to_secs(1_999_999), 1);
    assert_eq!(micros_to_secs(0), 0);
    assert_eq!(micros_to_secs(-1), -1);
    assert_eq!(micros_to_secs(-1_000_000), -1);
    assert_eq!(micros_to_secs(-1_000_001), -2);
    assert_eq!(micros_to_secs(i64::MIN), -9223372036855);
}

#[test]
fn identifiers_that_do_not_parse_are_invalid_arguments() {
    let svc = blog::grpc::BlogServiceImpl::new(
        blog::service::AuthService::new(blog::store::MemoryUserRepository::new(), blog::security::JwtService::new("k")),
        blog::service::BlogService::new(blog::store::MemoryPostRepository::new()),
    );
    let s = svc.get_post(GetPostRequest { id: "nope".into() }).unwrap_err();
    assert_eq!(s.code, blog::presentation::GrpcCode::InvalidArgument);
    assert!(!s.message.is_empty());
    let s = svc.get_post(GetPostRequest { id: "019dac5b-033f-7cb3-bf98-b91c40512f31".into() }).unwrap_err();
    assert_eq!(s.code, blog::presentation::GrpcCode::NotFound);
    assert_eq!(s.message, "Post not found: 019dac5b-033f-7cb3-bf98-b91c40512f31");
}
