//! A Markdown typesetting library for WeChat articles: preset and custom
//! themes, rendering to HTML with inline styles, code highlighting, the
//! clipboard payloads, workspace search and the application's settings.
pub mod clipboard;
pub mod config;
pub mod highlight;
pub mod laws;
pub mod render;
pub mod text;
pub mod theme;
pub mod workspace;
