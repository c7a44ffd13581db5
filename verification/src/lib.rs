//! Unified error taxonomy for a client of the Kafka binary protocol.
//!
//! Every failure the wider client can observe — an I/O failure on the
//! connection, a status code reported inline by a remote broker, or a
//! malformed, truncated or undecodable response — is classified into one
//! closed [`error::Error`] type, so that callers above the transport and
//! codec layers see a single failure vocabulary.

pub mod error;
