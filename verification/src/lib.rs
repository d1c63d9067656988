//! Client-side core for an IAM token exchange: the request body for the
//! API-key grant, the classification of token-exchange responses into a
//! token record or a typed authentication error, and the per-operation
//! classifiers that map HTTP status codes to closed error enumerations.
pub mod auth;
pub mod json;
pub mod voices;
