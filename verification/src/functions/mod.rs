//! Serverless functions: the errors they report.

pub mod errors;
