//! Witness-requirement engine for ledger certificates.
//!
//! Given a certificate describing a stake-pool or stake-key action, this crate
//! determines which cryptographic witnesses (key signatures or script
//! satisfactions) a spending transaction must carry before the certificate is
//! considered authorized, and builds an immutable, validated record of how that
//! authorization will be supplied.

pub mod certificate_builder;
pub mod certs;
pub mod hashes;
pub mod scripts;
pub mod witness_builder;
