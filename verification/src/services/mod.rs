//! AWS service clients and profile management
pub mod aws;
pub mod read_config;
