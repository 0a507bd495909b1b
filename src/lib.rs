//! The decision logic of a small desktop shell: an about window that is built
//! lazily and never twice, and clipboard commands whose failures are reported
//! as diagnostics instead of reaching the user interface.

mod about_window;
mod clipboard;
mod session;

pub use about_window::{
    about_config, about_label, about_window_config, creation_failure_message, next, AboutAction,
    AboutActionView, AboutController, AboutEvent, AboutEventView, AboutState, WindowConfig,
    WindowConfigView,
};
pub use clipboard::{clipboard_diagnostic, format_name, write_failure_message, ClipboardFormat};
pub use session::{
    creation_requests, lemma_failure_allows_one_retry, lemma_first_event_creates_once,
    lemma_open_window_blocks_creation, reply_event,
};
