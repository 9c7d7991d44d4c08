//! The core of a small browser.
//!
//! [`dom`] is the document model: a tree of element and text nodes with the
//! attribute queries that styling needs. The other modules decide what the
//! browser's commands do and answer; the windows themselves belong to the
//! host, which reports to these modules and acts on what they return.

pub mod address;
pub mod commands;
pub mod decimal;
pub mod dom;
pub mod navigation;
pub mod reply;
pub mod scripts;
pub mod tokens;
