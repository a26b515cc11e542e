//! What a user can choose about the prompt.

pub mod types;
