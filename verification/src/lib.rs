//! Verified core of a small blog platform: users, posts, authentication
//! tokens, the rules of the blog services, the mapping of their errors onto
//! HTTP and gRPC answers, and the decisions of the command-line and browser
//! clients.

mod text;
pub mod ids;
pub mod domain;
pub mod store;
pub mod security;
pub mod service;
pub mod presentation;
pub mod grpc;
pub mod http;
pub mod config;
pub mod client;
pub mod web;

