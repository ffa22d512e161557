use vstd::prelude::*;

use crate::domain::{AppError, DomainError, Post, User, app_error_text};
use crate::ids::{text_is_uuid_of, micros_to_secs, parse_uuid, secs_of_micros, uuid_parse_result, uuid_text, uuid_to_string, parse_view};
use crate::security::{claims_of_issued, hs256_claims, hs256_signed, issued_for, lemma_issued_token_claims, Claims, JwtService};
use crate::text::{join2, join3, owned, starts_with, strip_prefix};

verus! {

/// The status codes of gRPC; `Success` stands for the code `OK`.
#[derive(Clone, Copy, Debug, PartialEq, Eq, Structural)]
pub enum GrpcCode {
    Success,
    Cancelled,
    Unknown,
    InvalidArgument,
    DeadlineExceeded,
    NotFound,
    AlreadyExists,
    PermissionDenied,
    ResourceExhausted,
    FailedPrecondition,
    Aborted,
    OutOfRange,
    Unimplemented,
    Internal,
    Unavailable,
    DataLoss,
    Unauthenticated,
}

/// A gRPC status: a code and a message.
#[derive(Clone, Debug)]
pub struct GrpcStatus {
    pub code: GrpcCode,
    pub message: String,
}

/// The body of an HTTP error answer.
#[derive(Clone, Debug)]
pub struct ErrorBody {
    pub error: String,
    pub status: u16,
}

/// The HTTP status of an application error.
pub open spec fn http_status_of(e: AppError) -> u16 {
    match e {
        AppError::Domain(d) => match d {
            DomainError::UserNotFound(_) => 404,
            DomainError::UserAlreadyExists(_) => 409,
            DomainError::InvalidCredentials => 401,
            DomainError::PostNotFound(_) => 404,
            DomainError::Forbidden { .. } => 403,
            DomainError::Validation(_) => 400,
            DomainError::Internal(_) => 500,
        },
        AppError::Database(_) => 500,
        AppError::Hash(_) => 500,
        AppError::Jwt(_) => 401,
        AppError::Config(_) => 500,
        AppError::Internal(_) => 500,
        AppError::Unauthorized => 401,
    }
}

/// Whether the error's details stay on the server.
pub open spec fn is_hidden(e: AppError) -> bool {
    e is Database || e is Hash || e is Config || e is Internal
}

/// The message that a client reads for an error.
pub open spec fn client_text(e: AppError) -> Seq<char> {
    if is_hidden(e) {
        "Internal server error"@
    } else {
        app_error_text(e)
    }
}

/// The gRPC code of an application error.
pub open spec fn grpc_code_of(e: AppError) -> GrpcCode {
    match e {
        AppError::Domain(d) => match d {
            DomainError::UserNotFound(_) => GrpcCode::NotFound,
            DomainError::PostNotFound(_) => GrpcCode::NotFound,
            DomainError::UserAlreadyExists(_) => GrpcCode::AlreadyExists,
            DomainError::InvalidCredentials => GrpcCode::Unauthenticated,
            DomainError::Validation(_) => GrpcCode::InvalidArgument,
            DomainError::Forbidden { .. } => GrpcCode::PermissionDenied,
            DomainError::Internal(_) => GrpcCode::Internal,
        },
        AppError::Unauthorized => GrpcCode::Unauthenticated,
        _ => GrpcCode::Internal,
    }
}

/// The gRPC message of an application error.
pub open spec fn grpc_text_of(e: AppError) -> Seq<char> {
    match e {
        AppError::Domain(d) => match d {
            DomainError::UserNotFound(m) => m@,
            DomainError::PostNotFound(id) => "Post not found: "@ + uuid_text(id),
            DomainError::UserAlreadyExists(name) => "User '"@ + name@ + "' already exists"@,
            DomainError::InvalidCredentials => "Invalid username or password"@,
            DomainError::Validation(m) => m@,
            DomainError::Forbidden { user_id, post_id } => "User "@ + uuid_text(user_id)
                + " is not author of post "@ + uuid_text(post_id),
            DomainError::Internal(m) => m@,
        },
        AppError::Database(m) => "Database error: "@ + m@,
        AppError::Hash(m) => "Hashing error: "@ + m@,
        AppError::Jwt(m) => "JWT error: "@ + m@,
        AppError::Config(m) => "Config error: "@ + m@,
        AppError::Internal(m) => m@,
        AppError::Unauthorized => "Authentication required"@,
    }
}

impl AppError {
    /// The HTTP status of the error.
    pub fn status_code(&self) -> (r: u16)
        ensures
            r == http_status_of(*self),
    {
        match self {
            AppError::Domain(d) => match d {
                DomainError::UserNotFound(_) => 404,
                DomainError::UserAlreadyExists(_) => 409,
                DomainError::InvalidCredentials => 401,
                DomainError::PostNotFound(_) => 404,
                DomainError::Forbidden { .. } => 403,
                DomainError::Validation(_) => 400,
                DomainError::Internal(_) => 500,
            },
            AppError::Database(_) => 500,
            AppError::Hash(_) => 500,
            AppError::Jwt(_) => 401,
            AppError::Config(_) => 500,
            AppError::Internal(_) => 500,
            AppError::Unauthorized => 401,
        }
    }

    /// The body of the HTTP answer to the error: its status and a message in
    /// which the details of server-side failures are withheld.
    pub fn error_response(&self) -> (r: ErrorBody)
        ensures
            r.status == http_status_of(*self),
            r.error@ == client_text(*self),
    {
        let status = self.status_code();
        let error_message = self.message();
        let client_message = match self {
            AppError::Database(_) | AppError::Hash(_) | AppError::Config(_) | AppError::Internal(_) => owned(
                "Internal server error",
            ),
            _ => error_message,
        };
        ErrorBody { error: client_message, status }
    }
}

/// The gRPC status that answers an application error.
pub fn map_app_error(err: AppError) -> (r: GrpcStatus)
    ensures
        r.code == grpc_code_of(err),
        r.message@ == grpc_text_of(err),
{
    match err {
        AppError::Domain(DomainError::UserNotFound(msg)) => GrpcStatus { code: GrpcCode::NotFound, message: msg },
        AppError::Domain(DomainError::PostNotFound(id)) => {
            let t = uuid_to_string(id);
            GrpcStatus { code: GrpcCode::NotFound, message: join2("Post not found: ", t.as_str()) }
        },
        AppError::Domain(DomainError::UserAlreadyExists(name)) => GrpcStatus {
            code: GrpcCode::AlreadyExists,
            message: join3("User '", name.as_str(), "' already exists"),
        },
        AppError::Domain(DomainError::InvalidCredentials) => GrpcStatus {
            code: GrpcCode::Unauthenticated,
            message: owned("Invalid username or password"),
        },
        AppError::Unauthorized => GrpcStatus {
            code: GrpcCode::Unauthenticated,
            message: owned("Authentication required"),
        },
        AppError::Domain(DomainError::Validation(msg)) => GrpcStatus { code: GrpcCode::InvalidArgument, message: msg },
        AppError::Domain(DomainError::Forbidden { user_id, post_id }) => {
            let u = uuid_to_string(user_id);
            let p = uuid_to_string(post_id);
            let head = join3("User ", u.as_str(), " is not author of post ");
            GrpcStatus { code: GrpcCode::PermissionDenied, message: join2(head.as_str(), p.as_str()) }
        },
        AppError::Domain(DomainError::Internal(msg)) => GrpcStatus { code: GrpcCode::Internal, message: msg },
        AppError::Database(msg) => GrpcStatus {
            code: GrpcCode::Internal,
            message: join2("Database error: ", msg.as_str()),
        },
        AppError::Hash(msg) => GrpcStatus {
            code: GrpcCode::Internal,
            message: join2("Hashing error: ", msg.as_str()),
        },
        AppError::Jwt(msg) => GrpcStatus {
            code: GrpcCode::Internal,
            message: join2("JWT error: ", msg.as_str()),
        },
        AppError::Config(msg) => GrpcStatus {
            code: GrpcCode::Internal,
            message: join2("Config error: ", msg.as_str()),
        },
        AppError::Internal(msg) => GrpcStatus { code: GrpcCode::Internal, message: msg },
    }
}

/// The user that an accepted bearer token names.
#[derive(Clone, Debug)]
pub struct AuthenticatedUser {
    pub id: u128,
    pub username: String,
}

/// Why a request's credentials were refused: an HTTP status and a message.
#[derive(Clone, Debug)]
pub struct AuthRejection {
    pub status: u16,
    pub message: String,
}

/// Whether a token, decoded with the secret, names the user: its subject
/// parses to the identifier and its `username` claim is the name; where it is
/// one that the service issued, that is the user it was issued for.
pub open spec fn names_issued_user(token: Seq<char>, secret: Seq<char>, id: u128, username: Seq<char>) -> bool {
    &&& hs256_signed(token, secret)
    &&& hs256_claims(token, secret) matches Some((Some(sub), Some(name), _)) && uuid_parse_result(sub)
        == Ok::<u128, Seq<char>>(id) && name == username
    &&& forall|uid: u128, name: Seq<char>| issued_for(token, uid, name, secret) ==> id == uid && username == name
}

/// Whether a refusal has the status and the message.
pub open spec fn rejection_is(e: AuthRejection, status: u16, msg: Seq<char>) -> bool {
    e.status == status && e.message@ == msg
}

/// Whether no token issued with the secret, for any user, equals `token`.
pub open spec fn not_issued(token: Seq<char>, secret: Seq<char>) -> bool {
    forall|uid: u128, name: Seq<char>| !#[trigger] issued_for(token, uid, name, secret)
}

/// Claims whose subject is no identifier's text are not those of a token
/// that the service issued.
proof fn lemma_subject_not_issued(token: Seq<char>, secret: Seq<char>, c: Claims)
    requires
        claims_of_issued(token, secret, c),
        forall|id: u128| c.sub@ != #[trigger] uuid_text(id),
    ensures
        not_issued(token, secret),
{
    assert forall|uid: u128, name: Seq<char>| !#[trigger] issued_for(token, uid, name, secret) by {
        if issued_for(token, uid, name, secret) {
            lemma_issued_token_claims(token, secret, uid, name, c);
            assert(c.sub@ == uuid_text(uid));
        }
    }
}

/// The identifier and the name that an accepted token carries are those it
/// was issued for.
proof fn lemma_accepted_names_issued(
    token: Seq<char>,
    secret: Seq<char>,
    c: crate::security::Claims,
    parsed: Result<u128, String>,
    id: u128,
)
    requires
        hs256_claims(token, secret) == Some((Some(c.sub@), Some(c.username@), Some(c.exp))),
        uuid_parse_result(c.sub@) == Ok::<u128, Seq<char>>(id),
        claims_of_issued(token, secret, c),
        text_is_uuid_of(c.sub@, parsed),
        parsed == Ok::<u128, String>(id),
    ensures
        names_issued_user(token, secret, id, c.username@),
{
    assert forall|uid: u128, name: Seq<char>| issued_for(token, uid, name, secret) implies id == uid
        && c.username@ == name by {
        lemma_issued_token_claims(token, secret, uid, name, c);
    }
}

/// The user that the claims of an accepted token name: the subject must be
/// the text of an identifier, else the token is refused.
pub fn user_of_claims(claims: Claims) -> (r: Result<AuthenticatedUser, AuthRejection>)
    ensures
        match uuid_parse_result(claims.sub@) {
            Ok(id) => r == Ok::<AuthenticatedUser, AuthRejection>(
                AuthenticatedUser { id, username: claims.username },
            ),
            Err(_) => r matches Err(e) && rejection_is(e, 401, "Invalid token subject"@),
        },
        r matches Ok(u) ==> text_is_uuid_of(claims.sub@, Ok::<u128, String>(u.id)),
        r is Err ==> forall|id: u128| claims.sub@ != #[trigger] uuid_text(id),
{
    match parse_uuid(claims.sub.as_str()) {
        Ok(id) => Ok(AuthenticatedUser { id, username: claims.username }),
        Err(_) => Err(AuthRejection { status: 401, message: owned("Invalid token subject") }),
    }
}

/// Checks the bearer token of an HTTP request and names its user. Without a
/// token service the request fails on the server's side, and only then; a
/// token that does not verify is refused, and the rest is `user_of_claims`.
pub fn jwt_validator(service: Option<&JwtService>, token: &str) -> (r: Result<AuthenticatedUser, AuthRejection>)
    ensures
        service is None ==> (r matches Err(e) && rejection_is(e, 500, "JwtService not found"@)),
        service is Some ==> !(r matches Err(e) && e.status == 500),
        service matches Some(j) && !hs256_signed(token@, j.secret()) ==> (r matches Err(e)
            && rejection_is(e, 401, "Invalid token"@)),
        r matches Err(e) && rejection_is(e, 401, "Invalid token subject"@) ==> (service matches Some(j)
            && hs256_signed(token@, j.secret()) && not_issued(token@, j.secret())),
        r matches Ok(u) ==> (service matches Some(j) && names_issued_user(
            token@,
            j.secret(),
            u.id,
            u.username@,
        )),
        r matches Err(e) ==> rejection_is(e, 500, "JwtService not found"@) || rejection_is(
            e,
            401,
            "Invalid token"@,
        ) || rejection_is(e, 401, "Invalid token subject"@),
{
    let jwt = match service {
        Some(j) => j,
        None => {
            return Err(AuthRejection { status: 500, message: owned("JwtService not found") });
        },
    };
    let claims = match jwt.verify_token(token) {
        Ok(c) => c,
        Err(_) => {
            proof {
                reveal_strlit("Invalid token");
                reveal_strlit("Invalid token subject");
                assert("Invalid token"@.len() != "Invalid token subject"@.len());
            }
            return Err(AuthRejection { status: 401, message: owned("Invalid token") });
        },
    };
    let ghost c = claims;
    let r = user_of_claims(claims);
    proof {
        if r is Err {
            lemma_subject_not_issued(token@, jwt.secret(), c);
        }
        if r is Ok {
            let id = r->Ok_0.id;
            lemma_accepted_names_issued(token@, jwt.secret(), c, Ok::<u128, String>(id), id);
        }
    }
    r
}

/// Whether a status has the code and the message.
pub open spec fn status_is(s: GrpcStatus, code: GrpcCode, msg: Seq<char>) -> bool {
    s.code == code && s.message@ == msg
}

/// The user identifier that the claims of an accepted token name for a gRPC
/// call: the subject must be the text of an identifier, else the call is an
/// invalid argument with the parser's message.
pub fn user_id_of_claims(claims: &Claims) -> (r: Result<u128, GrpcStatus>)
    ensures
        match uuid_parse_result(claims.sub@) {
            Ok(id) => r == Ok::<u128, GrpcStatus>(id),
            Err(m) => r matches Err(s) && status_is(s, GrpcCode::InvalidArgument, m),
        },
        r matches Ok(id) ==> text_is_uuid_of(claims.sub@, Ok::<u128, String>(id)),
        r is Err ==> forall|id: u128| claims.sub@ != #[trigger] uuid_text(id),
{
    match parse_uuid(claims.sub.as_str()) {
        Ok(id) => Ok(id),
        Err(e) => Err(GrpcStatus { code: GrpcCode::InvalidArgument, message: e }),
    }
}

/// Reads the user of a gRPC call from its `authorization` metadata: missing,
/// unreadable as text, or holding a text. The text must be `Bearer ` and a
/// token that verifies and whose subject is an identifier.
pub fn bearer_user_id(jwt: &JwtService, authorization: Option<Result<String, String>>) -> (r: Result<u128, GrpcStatus>)
    ensures
        authorization is None ==> (r matches Err(s) && status_is(
            s,
            GrpcCode::Unauthenticated,
            "Missing authorization header"@,
        )),
        authorization matches Some(Err(e)) ==> (r matches Err(s) && status_is(
            s,
            GrpcCode::Unauthenticated,
            e@,
        )),
        authorization matches Some(Ok(h)) && !starts_with(h@, "Bearer "@) ==> (r matches Err(s)
            && status_is(s, GrpcCode::Unauthenticated, "Invalid authorization token"@)),
        r matches Ok(id) ==> (authorization matches Some(Ok(h)) && starts_with(h@, "Bearer "@)
            && names_issued_id(h@.skip(7), jwt.secret(), id)),
        authorization matches Some(Ok(h)) && starts_with(h@, "Bearer "@) && !hs256_signed(
            h@.skip(7),
            jwt.secret(),
        ) ==> (r matches Err(s) && s.code == GrpcCode::Unauthenticated),
        r matches Err(s) && s.code == GrpcCode::InvalidArgument ==> (authorization matches Some(Ok(h))
            && starts_with(h@, "Bearer "@) && hs256_signed(h@.skip(7), jwt.secret()) && not_issued(
            h@.skip(7),
            jwt.secret(),
        )),
        r matches Err(s) ==> s.code == GrpcCode::Unauthenticated || s.code
            == GrpcCode::InvalidArgument,
{
    let header = match authorization {
        None => {
            return Err(
                GrpcStatus {
                    code: GrpcCode::Unauthenticated,
                    message: owned("Missing authorization header"),
                },
            );
        },
        Some(Err(e)) => {
            return Err(GrpcStatus { code: GrpcCode::Unauthenticated, message: e });
        },
        Some(Ok(h)) => h,
    };
    let token = match strip_prefix(header.as_str(), "Bearer ") {
        Some(t) => t,
        None => {
            return Err(
                GrpcStatus {
                    code: GrpcCode::Unauthenticated,
                    message: owned("Invalid authorization token"),
                },
            );
        },
    };
    proof {
        reveal_strlit("Bearer ");
    }
    let claims = match jwt.verify_token(token.as_str()) {
        Ok(c) => c,
        Err(e) => {
            return Err(GrpcStatus { code: GrpcCode::Unauthenticated, message: e });
        },
    };
    let id = match user_id_of_claims(&claims) {
        Ok(id) => id,
        Err(s) => {
            proof {
                lemma_subject_not_issued(token@, jwt.secret(), claims);
            }
            return Err(s);
        },
    };
    proof {
        lemma_accepted_names_issued(token@, jwt.secret(), claims, Ok::<u128, String>(id), id);
    }
    Ok(id)
}

/// Failures on the server's side are answered with status 500 and a message
/// that discloses nothing of them.
pub proof fn law_server_failures_hidden(e: AppError)
    requires
        is_hidden(e),
    ensures
        http_status_of(e) == 500,
        client_text(e) == "Internal server error"@,
        grpc_code_of(e) == GrpcCode::Internal,
{
}

/// Every error is answered with a client or a server error status, never a
/// success, over HTTP and over gRPC.
pub proof fn law_errors_are_failures(e: AppError)
    ensures
        400 <= http_status_of(e) <= 500,
        grpc_code_of(e) != GrpcCode::Success,
{
}

/// HTTP and gRPC answer alike a missing item, a conflict, a refused author
/// and an invalid request.
pub proof fn law_http_and_grpc_agree(e: AppError)
    ensures
        (http_status_of(e) == 404) == (grpc_code_of(e) == GrpcCode::NotFound),
        (http_status_of(e) == 409) == (grpc_code_of(e) == GrpcCode::AlreadyExists),
        (http_status_of(e) == 403) == (grpc_code_of(e) == GrpcCode::PermissionDenied),
        (http_status_of(e) == 400) == (grpc_code_of(e) == GrpcCode::InvalidArgument),
{
}

/// A token issued for a user, once accepted, names that user and no other.
pub proof fn law_token_names_its_user(token: Seq<char>, secret: Seq<char>, user_id: u128, username: Seq<char>, id: u128, name: Seq<char>)
    requires
        issued_for(token, user_id, username, secret),
        names_issued_user(token, secret, id, name),
    ensures
        id == user_id,
        name == username,
{
}

/// Whether a token, decoded with the secret, names the identifier: its
/// subject parses to it; where it is one that the service issued, that is the
/// user it was issued for.
pub open spec fn names_issued_id(token: Seq<char>, secret: Seq<char>, id: u128) -> bool {
    &&& hs256_signed(token, secret)
    &&& hs256_claims(token, secret) matches Some((Some(sub), _, _)) && uuid_parse_result(sub) == Ok::<
        u128,
        Seq<char>,
    >(id)
    &&& forall|uid: u128, name: Seq<char>| issued_for(token, uid, name, secret) ==> id == uid
}

} // verus!
