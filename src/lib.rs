//! Builds a project README in Markdown from a handful of answers: the
//! answers are trimmed and checked, a license badge is chosen, an
//! installation plan is inferred, and the document is assembled in a
//! fixed section order.

pub mod text;
pub mod metadata;
pub mod license;
pub mod install;
pub mod document;
