//! A vocabulary-practice session: one prompt word at a time, a free-text
//! explanation typed by the user, and at most one scoring task whose result
//! is applied only while the session still waits for it.
pub mod laws;
pub mod prompts;
pub mod session;
