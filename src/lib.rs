pub mod auth;
pub mod envelope;
pub mod error_code;
pub mod failure;
pub mod text;

pub use auth::{interceptor, Auth};
pub use envelope::{
    envelope_response,
    envelope_body, error, error_respond_to, success, success_respond_to, unauthorized,
    ContentKind, Response, WireResponse, STATUS_BAD_REQUEST, STATUS_OK,
};
pub use error_code::{throw, throw_tips, ErrorCode};
pub use failure::Error;
