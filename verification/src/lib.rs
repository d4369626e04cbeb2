//! Verified core of a terminal onboarding step that configures a custom
//! model provider: the text fields for the API URL and key, the model
//! list, the state machine that ties them together, and the texts that
//! the step writes to disk or shows on screen.

pub mod text;
pub mod models;
pub mod input;
pub mod setup;
pub mod config;
pub mod screen;
pub mod laws;
pub mod layout;
pub mod text_laws;
