//! Request routing, statement construction and response shaping for a
//! small service that keeps quotes in one relational table.

pub mod text;
pub mod rowid;
pub mod buffer;
pub mod quote;
pub mod statement;
pub mod failure;
pub mod response;
pub mod operation;
pub mod handler;
pub mod laws;
