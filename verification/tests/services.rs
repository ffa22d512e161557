use blog::domain::{AppError, CreatePost, DomainError, Post, UpdatePost, User};
use blog::security::{hash_password, verify_password, JwtService};
use blog::service::{AuthService, BlogService};
use blog::store::{MemoryPostRepository, MemoryUserRepository};

fn post_at(id: u128, author: u128, created: i64) -> Post {
    Post {
        id,
        title: format!("title {}", id),
        content: format!("content {}", id),
        author_id: author,
        created_at: created,
        updated_at: created,
    }
}

#[test]
fn repository_keeps_posts_newest_first() {
    let mut repo = MemoryPostRepository::new();
    assert!(repo.create(post_at(1, 7, 100)).is_ok());
    assert!(repo.create(post_at(2, 7, 300)).is_ok());
    assert!(repo.create(post_at(3, 7, 200)).is_ok());
    assert!(repo.create(post_at(4, 7, 300)).is_ok());
    let page = repo.list_paginated(10, 0).unwrap();
    assert_eq!(page.total, 4);
    let ids: Vec<u128> = page.posts.iter().map(|p| p.id).collect();
    assert_eq!(ids, vec![4, 2, 3, 1]);
}

#[test]
fn repository_refuses_a_taken_identifier() {
    let mut repo = MemoryPostRepository::new();
    assert!(repo.create(post_at(1, 7, 100)).is_ok());
    let r = repo.create(post_at(1, 8, 200));
    assert!(matches!(r, Err(DomainError::Internal(_))));
    assert_eq!(repo.list_paginated(10, 0).unwrap().total, 1);
}

#[test]
fn repository_pages_and_refuses_negative_bounds() {
    let mut repo = MemoryPostRepository::new();
    for i in 0..5u128 {
        repo.create(post_at(i + 1, 7, i as i64)).unwrap();
    }
    let page = repo.list_paginated(2, 1).unwrap();
    let ids: Vec<u128> = page.posts.iter().map(|p| p.id).collect();
    assert_eq!(ids, vec![4, 3]);
    assert_eq!(page.total, 5);
    assert_eq!(repo.list_paginated(2, 10).unwrap().posts.len(), 0);
    match repo.list_paginated(-1, 0) {
        Err(DomainError::Internal(m)) => assert_eq!(m, "error returned from database: LIMIT must not be negative"),
        other => panic!("unexpected {:?}", other),
    }
    match repo.list_paginated(1, -1) {
        Err(DomainError::Internal(m)) => assert_eq!(m, "error returned from database: OFFSET must not be negative"),
        other => panic!("unexpected {:?}", other),
    }
}

#[test]
fn repository_update_keeps_creation_time() {
    let mut repo = MemoryPostRepository::new();
    repo.create(post_at(1, 7, 100)).unwrap();
    let mut changed = post_at(1, 9, 555);
    changed.title = "new".to_string();
    let u = repo.update(changed).unwrap();
    assert_eq!(u.title, "new");
    assert_eq!(u.author_id, 9);
    assert_eq!(u.created_at, 100);
    assert!(u.updated_at > 100);
    assert!(matches!(repo.update(post_at(2, 7, 1)), Err(DomainError::PostNotFound(2))));
    assert!(matches!(repo.delete(2), Err(DomainError::PostNotFound(2))));
    assert!(repo.delete(1).is_ok());
    assert!(repo.find_by_id(1).is_none());
}

fn user(id: u128, name: &str, email: &str) -> User {
    User {
        id,
        username: name.to_string(),
        email: email.to_string(),
        password_hash: "h".to_string(),
        created_at: 0,
    }
}

#[test]
fn user_repository_checks_constraints_in_column_order() {
    let mut repo = MemoryUserRepository::new();
    assert!(repo.create(user(1, "ivan", "ivan@example.com")).is_ok());
    assert!(matches!(repo.create(user(1, "petr", "petr@example.com")), Err(DomainError::Internal(_))));
    match repo.create(user(2, "ivan", "ivan@example.com")) {
        Err(DomainError::UserAlreadyExists(m)) => assert_eq!(m, "username already exists"),
        other => panic!("unexpected {:?}", other),
    }
    match repo.create(user(2, "petr", "ivan@example.com")) {
        Err(DomainError::UserAlreadyExists(m)) => assert_eq!(m, "email already exists"),
        other => panic!("unexpected {:?}", other),
    }
    assert_eq!(repo.find_by_username("ivan").unwrap().id, 1);
    assert!(repo.find_by_username("petr").is_none());
    assert_eq!(repo.find_by_id(1).unwrap().username, "ivan");
}

fn blog() -> BlogService {
    BlogService::new(MemoryPostRepository::new())
}

#[test]
fn read_after_create_gives_the_post() {
    let mut svc = blog();
    let p = svc
        .create_post(CreatePost { title: "Мой первый пост".into(), content: "Содержание".into() }, 42)
        .unwrap();
    assert_eq!(p.author_id, 42);
    assert_eq!(p.created_at, p.updated_at);
    let got = svc.get_post(p.id).unwrap();
    assert_eq!(got.title, "Мой первый пост");
    assert_eq!(got.content, "Содержание");
}

#[test]
fn read_after_delete_is_not_found() {
    let mut svc = blog();
    let p = svc.create_post(CreatePost { title: "t".into(), content: "c".into() }, 1).unwrap();
    assert!(svc.delete_post(p.id, 1).is_ok());
    assert!(matches!(svc.get_post(p.id), Err(AppError::Domain(DomainError::PostNotFound(id))) if id == p.id));
    assert!(matches!(svc.delete_post(p.id, 1), Err(AppError::Domain(DomainError::PostNotFound(_)))));
}

#[test]
fn only_the_author_changes_or_deletes_a_post() {
    let mut svc = blog();
    let p = svc.create_post(CreatePost { title: "t".into(), content: "c".into() }, 1).unwrap();
    let r = svc.update_post(p.id, 2, UpdatePost { title: Some("x".into()), content: None });
    match r {
        Err(AppError::Domain(DomainError::Forbidden { user_id, post_id })) => {
            assert_eq!(user_id, 2);
            assert_eq!(post_id, p.id);
        }
        other => panic!("unexpected {:?}", other),
    }
    assert!(matches!(svc.delete_post(p.id, 2), Err(AppError::Domain(DomainError::Forbidden { .. }))));
    assert_eq!(svc.get_post(p.id).unwrap().title, "t");
}

#[test]
fn update_replaces_only_the_given_fields() {
    let mut svc = blog();
    let p = svc.create_post(CreatePost { title: "t".into(), content: "c".into() }, 1).unwrap();
    let u = svc.update_post(p.id, 1, UpdatePost { title: Some("Обновлённый заголовок".into()), content: None }).unwrap();
    assert_eq!(u.title, "Обновлённый заголовок");
    assert_eq!(u.content, "c");
    assert_eq!(u.author_id, 1);
    assert_eq!(u.created_at, p.created_at);
    assert!(u.updated_at >= p.updated_at);
    assert!(matches!(
        svc.update_post(12345, 1, UpdatePost { title: None, content: None }),
        Err(AppError::Domain(DomainError::PostNotFound(12345)))
    ));
}

#[test]
fn list_clamps_limit_and_offset() {
    let mut svc = blog();
    for _ in 0..3 {
        svc.create_post(CreatePost { title: "t".into(), content: "c".into() }, 1).unwrap();
    }
    let page = svc.list_posts(0, -5).unwrap();
    assert_eq!(page.posts.len(), 1);
    assert_eq!(page.total, 3);
    let page = svc.list_posts(1000, 0).unwrap();
    assert_eq!(page.posts.len(), 3);
    let page = svc.list_posts(10, 2).unwrap();
    assert_eq!(page.posts.len(), 1);
}

fn auth() -> AuthService {
    AuthService::new(MemoryUserRepository::new(), JwtService::new("secret"))
}

#[test]
fn register_validates_in_order() {
    let mut svc = auth();
    match svc.register("".into(), "".into(), "".into()) {
        Err(AppError::Domain(DomainError::Validation(m))) => assert_eq!(m, "password is empty"),
        other => panic!("unexpected {:?}", other),
    }
    match svc.register("".into(), "a@b.c".into(), "secret123".into()) {
        Err(AppError::Domain(DomainError::Validation(m))) => assert_eq!(m, "username is empty"),
        other => panic!("unexpected {:?}", other),
    }
    match svc.register("ivan".into(), "".into(), "secret123".into()) {
        Err(AppError::Domain(DomainError::Validation(m))) => assert_eq!(m, "email is empty"),
        other => panic!("unexpected {:?}", other),
    }
}

#[test]
fn register_then_login() {
    let mut svc = auth();
    let (u, token) = svc.register("ivan".into(), "Ivan@Example.COM".into(), "secret123".into()).unwrap();
    assert_eq!(u.username, "ivan");
    assert_eq!(u.email, "ivan@example.com");
    let claims = svc.jwt_service().verify_token(&token).unwrap();
    assert_eq!(claims.username, "ivan");
    assert_eq!(claims.sub.len(), 36);
    assert_eq!(blog::presentation::jwt_validator(Some(svc.jwt_service()), &token).unwrap().id, u.id);
    let (logged, token2) = svc.login("ivan", "secret123").unwrap();
    assert_eq!(logged.id, u.id);
    assert_eq!(svc.jwt_service().verify_token(&token2).unwrap().username, "ivan");
    assert!(matches!(svc.login("ivan", "wrong"), Err(AppError::Unauthorized)));
    assert!(matches!(svc.login("petr", "secret123"), Err(AppError::Unauthorized)));
    assert_eq!(svc.get_user(u.id).unwrap().username, "ivan");
}

#[test]
fn register_twice_is_refused() {
    let mut svc = auth();
    svc.register("ivan".into(), "ivan@example.com".into(), "secret123".into()).unwrap();
    match svc.register("ivan".into(), "other@example.com".into(), "x".into()) {
        Err(AppError::Domain(DomainError::UserAlreadyExists(m))) => assert_eq!(m, "username already exists"),
        other => panic!("unexpected {:?}", other),
    }
    match svc.register("petr".into(), "IVAN@example.com".into(), "x".into()) {
        Err(AppError::Domain(DomainError::UserAlreadyExists(m))) => assert_eq!(m, "email already exists"),
        other => panic!("unexpected {:?}", other),
    }
}

#[test]
fn missing_user_is_reported_with_its_identifier() {
    let svc = auth();
    match svc.get_user(1) {
        Err(AppError::Domain(DomainError::UserNotFound(m))) => {
            assert_eq!(m, "user 00000000-0000-0000-0000-000000000001")
        }
        other => panic!("unexpected {:?}", other),
    }
}

#[test]
fn password_hash_checks_only_its_password() {
    let h = hash_password("secret123").unwrap();
    assert!(h.starts_with("$argon2"));
    assert_eq!(verify_password("secret123", &h), Ok(true));
    assert_eq!(verify_password("secret124", &h), Ok(false));
    assert!(verify_password("secret123", "not a hash").is_err());
}

#[test]
fn tokens_of_another_secret_are_refused() {
    let a = JwtService::new("secret");
    let b = JwtService::new("other");
    let t = a.generate_token(5, "ivan").unwrap();
    assert!(b.verify_token(&t).is_err());
    let c = a.verify_token(&t).unwrap();
    assert_eq!(c.sub, "00000000-0000-0000-0000-000000000005");
    assert!(a.verify_token("a.b.c").is_err());
}

#[test]
fn new_identifiers_are_version_7() {
    let mut b = blog();
    let p = b.create_post(CreatePost { title: "t".into(), content: "c".into() }, 1).unwrap();
    assert_eq!(uuid::Uuid::from_u128(p.id).get_version_num(), 7);
    assert_eq!(uuid::Uuid::from_u128(p.id).get_variant(), uuid::Variant::RFC4122);
    let u = User::new("a".into(), "a@x".into(), "h".into()).unwrap();
    assert_eq!(uuid::Uuid::from_u128(u.id).get_version_num(), 7);
}

#[test]
fn user_identifier_clash_is_a_database_error() {
    let mut repo = MemoryUserRepository::new();
    repo.create(user(1, "petr", "petr@example.com")).unwrap();
    match repo.create(user(1, "olga", "olga@example.com")) {
        Err(DomainError::Internal(m)) => assert_eq!(
            m,
            "database error: error returned from database: duplicate key value violates unique constraint \"users_pkey\""
        ),
        other => panic!("unexpected {:?}", other),
    }
}

#[test]
fn registration_stores_an_argon2id_hash() {
    let mut svc = auth();
    let (u, _) = svc.register("olga".into(), "o@x".into(), "pw".into()).unwrap();
    assert!(u.password_hash.starts_with("$argon2id$"));
    assert_ne!(u.password_hash, "pw");
}
