//! Account and session logic of a small chat/auth web service: response envelopes,
//! user records, credential checks, password sealing and the decisions of the
//! account service, kept apart from the HTTP and database plumbing.

pub mod auth_end_point;
pub mod base_response_model;
pub mod bearer;
pub mod chat_message_model;
pub mod constants;
pub mod helper;
pub mod object_id;
pub mod status_code;
pub mod token_model;
pub mod user_end_point;
pub mod user_model;
pub mod user_repository;
pub mod user_service;
