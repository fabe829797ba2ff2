//! Core logic of a secure-messaging client: backup validation, enclave
//! connection decisions, server-push demultiplexing and DNS-over-HTTPS planning.
pub mod backup;
pub mod connection_manager;
pub mod dns;
pub mod dns_message;
pub mod enclave;
pub mod server_requests;
pub mod text;
