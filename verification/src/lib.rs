//! Pages of a personal site, rendered to HTML text, and the highlighting
//! pass that its Markdown articles go through.

pub mod blog;
pub mod command;
pub mod export;
pub mod highlight;
pub mod layout;
pub mod markdown;
pub mod markup;
pub mod pages;
pub mod text;
