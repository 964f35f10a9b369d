//! Protocol-compliance scoring: declarative test cases are put to a
//! conversational endpoint and its replies are scored against required-prefix
//! and forbidden-content rules.
//!
//! The crate decides and computes; reading files and talking to the endpoint
//! are left to the caller, who drives a [`Runner`] by its [`Step`]s.

pub mod endpoint;
pub mod errors;
pub mod evaluator;
pub mod json;
pub mod loader;
pub mod model;
pub mod paths;
pub mod progress;
pub mod reporter;
pub mod runner;
pub mod seqs;
pub mod text;

pub use endpoint::{reply_of, response_text, Transport, CHAT_ENDPOINT};
pub use errors::RunError;
pub use evaluator::{evaluate_lowered, evaluate_response};
pub use loader::build_compliance_tests;
pub use model::{ComplianceTest, TestResult};
pub use paths::document_paths;
pub use reporter::{report_lines, summarize, Summary};
pub use runner::{Action, Event, Phase, Runner, Step};
