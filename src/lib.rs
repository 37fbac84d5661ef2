//! Authentication and session-authorization core of a small user backend:
//! credential verification, login and id lookup decisions, a session table
//! with a sliding inactivity window, and the check in front of protected
//! operations.

pub mod credential;
pub mod handler;
pub mod models;
pub mod service;
pub mod session;
pub mod settings;
