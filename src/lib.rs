//! A small client for the SendGrid mail-send endpoint: a message model, the
//! encoder that turns a message into a form-urlencoded request body, and the
//! request description that a transport sends.

pub mod client;
pub mod error;
pub mod form;
pub mod json;
pub mod laws;
pub mod mail;

pub use client::{encode_post_body, make_post_body, post_body_with_headers, SGClient, SendRequest};
pub use error::SendgridError;
pub use form::make_form_key;
pub use mail::Mail;
