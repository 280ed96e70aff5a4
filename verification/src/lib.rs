//! Signing an HTTP request with temporary AWS credentials obtained through
//! Cognito: the decisions of the sign-in flow and the construction of the
//! SigV4 signing headers, each with a machine-checked contract.

pub mod broker;
pub mod error;
pub mod flow;
pub mod headers;
pub mod settings;
pub mod signer;
pub mod token;
