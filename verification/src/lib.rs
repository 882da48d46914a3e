//! A small client-side page loader: it fetches Markdown documents over HTTP,
//! converts each to HTML, mounts the result — trusted as-is or parsed into
//! structured nodes — and keeps the rendered articles in a one-shot
//! application state machine.

pub mod digits;
pub mod fetch;
pub mod mount;
pub mod pipeline;
pub mod render;
pub mod state;
