//! Bounded in-process capture of log records, with a filtering view over what was captured.

pub mod clock;
pub mod debug_view;
pub mod debug_view_filter;
pub mod level;
pub mod logger;
pub mod record;
pub mod registry;
pub mod source;
pub mod store;
pub mod width;
