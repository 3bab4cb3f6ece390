//! The authorization-code grant: its two requests, the token a provider
//! returns, and the authorization-endpoint error object.

mod auth_code_error;
mod auth_code_request;
mod auth_code_token;
mod auth_code_token_request;

pub use auth_code_error::{AuthCodeError, AuthCodeErrorKind};
pub use auth_code_request::AuthCodeRequest;
pub use auth_code_token::{token_validity, AuthCodeToken};
pub use auth_code_token_request::AuthCodeAccessTokenRequest;
