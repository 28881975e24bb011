pub mod fingerprint;
pub mod fingerprint_inst_function;
pub mod fingerprint_name;
pub mod fingerprint_registry;
pub mod simple_fingerprint;
pub mod standard;

pub use fingerprint::{Fingerprint, FingerprintData};
pub use fingerprint_inst_function::{FingerprintInstFunction, ALPHABET_SIZE};
pub use fingerprint_name::FingerprintName;
pub use fingerprint_registry::FingerprintRegistry;
pub use simple_fingerprint::SimpleFingerprint;
