//! Live preview of a markdown document: a versioned content store, a
//! fan-out notifier with bounded per-subscriber queues, the watch-event
//! decisions, and the page template around the rendered markup.

pub mod hub;
pub mod launch;
pub mod page;
pub mod preview;
pub mod render;
pub mod store;

pub use hub::{Broadcaster, Delivery};
pub use launch::{
    browser_command, check_for_wsl2, display_host, same_text, LaunchCommand, Platform, ANY_HOST,
    WSL_INTEROP_PATH,
};
pub use page::{build_full_html, read_fonts, read_style_css, Fonts};
pub use preview::{
    fallback_backend, on_watch_event, render_static_page, select_watch_backend, LivePreview,
    WatchAction, WatchBackend, WatchEvent, WatchEventKind, POLL_INTERVAL_MS,
};
pub use render::{
    line_break_html, map_event, math_fragment, render_display_latex_to_html,
    render_inline_latex_to_html, substitute, MarkdownEventKind,
};
pub use store::{ContentRevision, ContentStore};
