pub mod api;
pub mod app;
pub mod attachments;
pub mod chars;
pub mod cli;
pub mod clock;
pub mod compose;
pub mod daemon;
pub mod fmt;
pub mod inbox;
pub mod models;
pub mod render;
pub mod statements;
pub mod sync;
pub mod sync_run;
pub mod text;
pub mod wake;
