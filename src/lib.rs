//! Decides which media a chat message refers to, which recognition request
//! it needs, and what reply the recognition result turns into.

pub mod text;
pub mod grammar;
pub mod classify;
pub mod extract;
pub mod backend;
pub mod dispatch;
pub mod compose;
pub mod pipeline;
