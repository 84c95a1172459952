//! A client adapter for a text-generation HTTP API: it describes the request
//! to send for a prompt and reads the generated text out of the reply.

pub mod config;
pub mod json;
pub mod laws;
pub mod request;
pub mod response;

pub use config::{ApiVariant, Credential, Options, OptionsBuilder};
pub use json::{Json, JsonValue, Member, MemberValue};
pub use request::{build_body, build_request, Header, Request};
pub use response::{
    conclude, extract, interpret, interpret_document, interpret_parsed, is_success, list_refusals,
    refusals_to_report, Conclusion, Error, Exchange, Failure, Reply,
};
