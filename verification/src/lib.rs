//! Verified core of the Jamii Routines services: passkey registration and login,
//! e-mail code and session checks, secp256r1 instruction data and JSON-RPC
//! request bodies.
pub mod bytes;
pub mod crypto;
pub mod secp256r1;
pub mod timestamp;
pub mod errors;
pub mod text;
pub mod webauthn;
pub mod challenge;
pub mod passkey_state;
pub mod passkey_auth;
pub mod app_routes;
pub mod cookie_auth;
pub mod handlers;
pub mod json;
pub mod rpc;
pub mod blockhash;
pub mod secrets;
