[package]
name = "blog"
version = "0.1.0"
edition = "2021"
publish = false

[dependencies]
uuid = { version = "=1.29.0", features = ["v7"] }
chrono = { version = "=0.4.45", default-features = false, features = ["clock", "std"] }
argon2 = "=0.5.3"
rand_core = { version = "=0.6.4", features = ["getrandom"] }
jsonwebtoken = "=9.3.1"
serde_json = { version = "=1.0.154", features = ["preserve_order"] }
serde = { version = "=1.0.229", features = ["derive"] }
clap = { version = "=4.6.7", features = ["derive"] }
actix-web = { version = "=4.18.1", default-features = false, features = ["macros"] }
actix-cors = "=0.7.2"
anyhow = "=1.0.104"
thiserror = "=2.0.21"
dotenvy = "=0.15.7"
tracing = "=0.1.44"
reqwest = { version = "=0.12.28", default-features = false, features = ["json"] }
yew = { version = "=0.21.0", features = ["csr"] }
gloo-net = "=0.6.0"
gloo-storage = "=0.3.0"
wasm-bindgen = "=0.2.130"
wasm-bindgen-futures = "=0.4.80"
web-sys = { version = "=0.3.107", features = ["HtmlInputElement", "HtmlTextAreaElement"] }
