pub mod text;
pub mod sse;
pub mod relay;
pub mod model;
pub mod counsel;
pub mod markdown;
pub mod wisdom;
pub mod fingerprint;
pub mod prompts;
pub mod personas;
pub mod conversation;
pub mod steps;
pub mod api;
pub mod chat;
pub mod admin;
pub mod auth;
pub mod flow;
pub mod chatflow;
