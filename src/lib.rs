//! Derivation of a stable, privacy-preserving device fingerprint.
pub mod fingerprint;
pub mod content;
pub mod display;
pub mod identity;

pub use fingerprint::{
    build_fingerprint_input, compute_fingerprint_hash, hash_fingerprint_input, to_lower_hex,
    INSTALL_UUID_KEY, MACHINE_ID_FALLBACK_KEY,
};
pub use content::{decode_file_content, ContentError};
pub use display::{choose_display_name, DEFAULT_DISPLAY_NAME};
pub use identity::{
    device_fingerprint, get_machine_id_with_fallback, get_or_create_install_uuid,
    plan_device_fingerprint, FingerprintPlan, MachineIdSource, MachineIdentity, StoredIdentities,
};
