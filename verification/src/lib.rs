//! Relay of contact-form submissions to e-mail: the configuration model, the
//! validation of a submission, the composition of the outgoing message and
//! the sequencing of one request, with their contracts.

pub mod config;
pub mod text;
pub mod verdict;
pub mod probe;
pub mod form;
pub mod email;
pub mod handler;
