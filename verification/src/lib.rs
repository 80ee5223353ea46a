//! An edge gatekeeper for signed identity assertions: a store of trusted
//! signing keys, the schedule that keeps it fresh, and the verification of a
//! token against it for one audience.

pub mod error;
pub mod jwks;
pub mod token;
pub mod poll;
pub mod extract;
