//! Page-count history of a document kept under version control.
//!
//! For every commit of a repository the document is rebuilt, its pages are
//! counted and a dated record is appended to a table. This crate holds the
//! rules of that pipeline: how cache entries and build artifacts are named,
//! which files a workspace copy leaves out, how records are rendered, and the
//! order in which the steps of a run follow each other. Nothing here touches
//! the file system or starts a process: a caller performs each action of the
//! pipeline and reports what happened as an event.

pub mod args;
pub mod invoke;
pub mod laws;
pub mod cache;
pub mod commit;
pub mod extract;
pub mod path;
pub mod pipeline;
pub mod record;
pub mod report;
pub mod text;
pub mod workspace;
