//! The decision core of an autonomous coding coordinator.
pub mod accounts;
pub mod ask;
pub mod attempts;
pub mod budget;
pub mod calendar;
pub mod clean;
pub mod compaction;
pub mod conduct;
pub mod convert;
pub mod coordinator;
pub mod decision;
pub mod errors;
pub mod events;
pub mod extract;
pub mod fallback;
pub mod items;
pub mod json;
pub mod json_text;
pub mod models;
pub mod parse;
pub mod prompts;
pub mod rate_limit;
pub mod recovery;
pub mod request;
pub mod retry;
pub mod role;
pub mod run;
pub mod schema;
pub mod stream;
pub mod text;
pub mod time;
pub mod turn;
