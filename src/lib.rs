//! Decision core of a chat bot that records personal-finance transactions:
//! onboarding state machine, message parsers and the records they work on.
pub mod text;
pub mod telegram;
pub mod wit;
pub mod parse;
pub mod machine;
pub mod laws;

