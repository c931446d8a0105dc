//! What the request handlers share: the error they answer with, decimal
//! text, and the rules for bearer tokens.

pub mod app_error;
pub mod jwt;
pub mod text;
