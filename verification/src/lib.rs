//! The verified core of the Dust & Orbit backend: one-time login codes,
//! access tokens and refresh sessions, and player levels. Each endpoint's
//! decisions are a flow of this library (a state and the next action); the
//! server in `app/` performs the database and mail work the flows
//! ask for.
pub mod access_token;
pub mod api;
pub mod chance;
pub mod clock;
pub mod ids;
pub mod laws;
pub mod level;
pub mod otp;
pub mod otp_request;
pub mod otp_verify;
pub mod secret_hash;
pub mod session;
pub mod status;
pub mod table_laws;
pub mod tables;
pub mod text;
