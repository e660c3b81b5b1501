//! A minimal diploma registry for a ledger program: one operation that
//! commits an immutable credential record into a fresh storage slot.

pub mod host;
pub mod issuance;
pub mod laws;
pub mod layout;
pub mod record;

pub use issuance::{issue_diploma, issue_diploma_at, IssueDiploma, IssueError, IssuerAccount};
pub use record::{Diploma, DiplomaView, Slot};
