//! Host-integrity auditing library: decides which files of a directory walk
//! are executable modules in scope for signature verification, classifies the
//! platform's certificate-chain status codes into a three-way trust outcome,
//! and models the open/query/close lifecycle of a verification session.

pub mod metadata;
pub mod scan;
pub mod trust;
