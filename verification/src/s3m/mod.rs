//! Load Scream Tracker 3 S3M modules.

pub mod s3m_effect;
pub mod s3m_module;
