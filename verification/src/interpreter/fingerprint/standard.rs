pub mod null_fingerprint;

pub use null_fingerprint::{create_null_fingerprint, inst_null, NULL_FINGERPRINT_ID};
