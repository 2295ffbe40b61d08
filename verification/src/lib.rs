//! The session controller of a Japanese input method.
//!
//! A key press is classified into a user action ([`user_action`]); the
//! state machine looks the action up and answers with the edit actions to
//! run and the state to enter ([`composition`]); the executor applies the
//! actions to the composition buffer and says which calls the host owes
//! the candidate service and the rendering sink ([`executor`]). Typed
//! characters pass through the width and symbol normalizer on their way to
//! the service ([`full_width`]).
//!
//! The engine performs no call itself. Whatever lies outside it reaches it
//! as a plain value: the modifier keys and the layout's answer with the
//! key, the service's candidates with the action they answer.

pub mod client_action;
pub mod composition;
pub mod config;
pub mod executor;
pub mod full_width;
pub mod input_mode;
pub mod laws;
pub mod romaji_table;
pub mod text;
pub mod text_util;
pub mod user_action;
