use vstd::prelude::*;

use crate::client::Transport;
use crate::text::{owned, parse_u16, pieces, split_commas, texts_are, trim, trimmed, u16_reading};

verus! {

/// The server's settings.
#[derive(Clone, Debug)]
pub struct Config {
    pub database_url: String,
    pub host: String,
    pub port: u16,
    pub grpc_port: u16,
    pub jwt_secret: String,
}

/// The text that a setting takes: the variable's value, or the default where
/// the variable cannot be read.
pub open spec fn setting_or(var: Result<String, String>, default: Seq<char>) -> Seq<char> {
    match var {
        Ok(v) => v@,
        Err(_) => default,
    }
}

/// Reads a port setting, falling back to a default text.
fn port_setting(var: Result<String, String>, default: &str) -> (r: Result<u16, String>)
    ensures
        match u16_reading(setting_or(var, default@)) {
            Some(n) => r == Ok::<u16, String>(n),
            None => r is Err,
        },
{
    match var {
        Ok(v) => parse_u16(v.as_str()),
        Err(_) => parse_u16(default),
    }
}

impl Config {
    /// The settings read from the variables `DATABASE_URL`, `HOST`, `PORT`,
    /// `GRPC_PORT` and `JWT_SECRET`, each given as the outcome of reading it.
    /// The database address and the secret are required; the host defaults to
    /// `127.0.0.1`, the ports to `3000` and `50051`; a port that is not a
    /// number is an error. The variables are looked at in that order.
    pub fn from_vars(
        database_url: Result<String, String>,
        host: Result<String, String>,
        port: Result<String, String>,
        grpc_port: Result<String, String>,
        jwt_secret: Result<String, String>,
    ) -> (r: Result<Config, String>)
        ensures
            database_url matches Err(e) ==> r == Err::<Config, String>(e),
            r matches Ok(c) ==> database_url == Ok::<String, String>(c.database_url) && c.host@
                == setting_or(host, "127.0.0.1"@) && u16_reading(setting_or(port, "3000"@))
                == Some(c.port) && u16_reading(setting_or(grpc_port, "50051"@)) == Some(
                c.grpc_port,
            ) && jwt_secret == Ok::<String, String>(c.jwt_secret),
            database_url is Ok && u16_reading(setting_or(port, "3000"@)) is Some && u16_reading(
                setting_or(grpc_port, "50051"@),
            ) is Some ==> (match jwt_secret {
                Ok(_) => r is Ok,
                Err(e) => r == Err::<Config, String>(e),
            }),
            database_url is Ok && u16_reading(setting_or(port, "3000"@)) is None ==> r is Err,
            database_url is Ok && u16_reading(setting_or(grpc_port, "50051"@)) is None ==> r is Err,
    {
        let database_url = match database_url {
            Ok(v) => v,
            Err(e) => {
                return Err(e);
            },
        };
        let host = match host {
            Ok(v) => v,
            Err(_) => owned("127.0.0.1"),
        };
        let port = match port_setting(port, "3000") {
            Ok(p) => p,
            Err(e) => {
                return Err(e);
            },
        };
        let grpc_port = match port_setting(grpc_port, "50051") {
            Ok(p) => p,
            Err(e) => {
                return Err(e);
            },
        };
        let jwt_secret = match jwt_secret {
            Ok(v) => v,
            Err(e) => {
                return Err(e);
            },
        };
        Ok(Config { database_url, host, port, grpc_port, jwt_secret })
    }
}

/// The origins that cross-origin requests may come from: the comma-separated
/// list of the `CORS_ORIGIN` variable, each entry trimmed, or
/// `http://localhost:8080` where the variable cannot be read.
pub open spec fn origins_of(var: Result<String, String>) -> Seq<Seq<char>> {
    pieces(setting_or(var, "http://localhost:8080"@), ',').map_values(|p: Seq<char>| trimmed(p))
}

/// The allowed origins of cross-origin requests.
pub fn allowed_origins(var: Result<String, String>) -> (r: Vec<String>)
    ensures
        texts_are(r@, origins_of(var)),
{
    let list = match var {
        Ok(v) => v,
        Err(_) => owned("http://localhost:8080"),
    };
    let parts = split_commas(list.as_str());
    let ghost ps = pieces(list@, ',');
    let mut out: Vec<String> = Vec::new();
    let mut i: usize = 0;
    while i < parts.len()
        invariant
            texts_are(parts@, ps),
            i <= parts@.len(),
            out@.len() == i,
            forall|k: int| 0 <= k < i ==> (#[trigger] out@[k])@ == trimmed(ps[k]),
        decreases parts@.len() - i,
    {
        let t = trim(parts[i].as_str());
        out.push(t);
        i = i + 1;
    }
    proof {
        assert(texts_are(out@, origins_of(var)));
    }
    out
}

/// The cross-origin policy of the HTTP server: the allowed origins, the
/// allowed methods, whether any request header is allowed, whether
/// credentials are supported, the response headers exposed to the page, and
/// how long, in seconds, a preflight answer may be kept.
#[derive(Clone, Debug)]
pub struct CorsPolicy {
    pub origins: Vec<String>,
    pub methods: Vec<String>,
    pub any_header: bool,
    pub credentials: bool,
    pub exposed_headers: Vec<String>,
    pub max_age: usize,
}

/// The server's cross-origin policy: the origins of `allowed_origins`; the
/// methods GET, POST, PUT, DELETE and OPTIONS; any header; credentials; the
/// `X-Total-Count` header exposed; preflight answers kept for an hour.
pub fn cors_policy(var: Result<String, String>) -> (r: CorsPolicy)
    ensures
        texts_are(r.origins@, origins_of(var)),
        texts_are(r.methods@, seq!["GET"@, "POST"@, "PUT"@, "DELETE"@, "OPTIONS"@]),
        r.any_header,
        r.credentials,
        texts_are(r.exposed_headers@, seq!["X-Total-Count"@]),
        r.max_age == 3600,
{
    let methods = vec![owned("GET"), owned("POST"), owned("PUT"), owned("DELETE"), owned("OPTIONS")];
    let exposed = vec![owned("X-Total-Count")];
    CorsPolicy {
        origins: allowed_origins(var),
        methods,
        any_header: true,
        credentials: true,
        exposed_headers: exposed,
        max_age: 3600,
    }
}

/// The body of the health check.
#[derive(Clone, Debug)]
pub struct HealthResponse {
    pub status: String,
    pub timestamp: String,
}

/// The time now in the RFC 3339 form, from `chrono::Utc::now().to_rfc3339()`.
/// It rests on the clock: nothing is stated of it.
#[verifier::external_body]
fn clock_rfc3339() -> (r: String) {
    chrono::Utc::now().to_rfc3339()
}

/// The answer of the health check: status `ok` and the time now.
pub fn health_response() -> (r: HealthResponse)
    ensures
        r.status@ == "ok"@,
{
    HealthResponse { status: owned("ok"), timestamp: clock_rfc3339() }
}

/// A command of the command-line client.
#[derive(Clone, Debug)]
pub enum Commands {
    Register { username: String, email: String, password: String },
    Login { username: String, password: String },
    Create { title: String, content: String },
    Get { id: String },
    Update { id: String, title: Option<String>, content: Option<String> },
    Delete { id: String },
    List { limit: i64, offset: i64 },
}

/// The arguments of the command-line client.
#[derive(Clone, Debug)]
pub struct Cli {
    pub grpc: bool,
    pub server: Option<String>,
    pub command: Commands,
}

/// The server address that the client uses: the one given, else the local
/// server on the port of the chosen protocol.
pub open spec fn server_address(grpc: bool, server: Option<String>) -> Seq<char> {
    match server {
        Some(s) => s@,
        None => if grpc {
            "http://localhost:50051/api"@
        } else {
            "http://localhost:3000/api"@
        },
    }
}

impl Cli {
    /// The transport that the arguments choose: gRPC with `--grpc`, else HTTP,
    /// to the address given or the local default.
    pub fn transport(&self) -> (r: Transport)
        ensures
            self.grpc ==> (r matches Transport::Grpc(a) && a@ == server_address(
                self.grpc,
                self.server,
            )),
            !self.grpc ==> (r matches Transport::Http(a) && a@ == server_address(
                self.grpc,
                self.server,
            )),
    {
        let addr = match &self.server {
            Some(s) => s.clone(),
            None => if self.grpc {
                owned("http://localhost:50051/api")
            } else {
                owned("http://localhost:3000/api")
            },
        };
        if self.grpc {
            Transport::Grpc(addr)
        } else {
            Transport::Http(addr)
        }
    }
}

/// The token kept in the token file: its contents trimmed, if the file could
/// be read.
pub fn stored_token(contents: Option<String>) -> (r: Option<String>)
    ensures
        match contents {
            Some(c) => r matches Some(t) && t@ == trimmed(c@),
            None => r is None,
        },
{
    match contents {
        Some(c) => Some(trim(c.as_str())),
        None => None,
    }
}

} // verus!
