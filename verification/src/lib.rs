//! Page-level logic for a powerlifting meet-data server: the CSV checker
//! endpoint and the contact page.
//!
//! The checker endpoint receives the raw text of a `meet.csv` and an
//! `entries.csv` and answers with the diagnostic messages that an external
//! checking engine produced for them. The engine itself (CSV parsing and
//! semantic validation) is an outside collaborator; this crate holds the
//! orchestration rules: the meet file is checked first, the entries file is
//! checked only when the meet file yielded a usable meet record, and every
//! outcome, including an infrastructure failure, is rendered as a plain data
//! value that can be serialized for the client.

pub mod checker;
pub mod contact;
pub mod json;

pub use checker::CheckerInput;
pub use checker::CheckerOutput;
pub use checker::check;
