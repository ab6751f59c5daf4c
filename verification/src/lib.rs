//! Session management and command translation for an encrypted secret-vault
//! engine.
//!
//! The crate tracks which vault snapshots are open, translates externally
//! tagged command payloads into the closed set of typed procedures the engine
//! understands, and enforces strict handling of secret material (password
//! hashing, buffer scrubbing). The engine itself — on-disk snapshot format,
//! cryptography, procedure execution — is an external collaborator: its
//! outcomes enter through plain `Result` values and its state is modelled by
//! the session types here.

pub mod bytemap;
pub mod bytes;
pub mod error;
pub mod key_type;
pub mod laws;
pub mod location;
pub mod password;
pub mod procedure;
pub mod registry;
pub mod secret;
pub mod session;
pub mod wire;

pub use bytes::BytesDto;
pub use error::Error;
pub use key_type::KeyType;
pub use location::{Location, LocationDto};
pub use password::{derive_snapshot_key, PasswordHashFunction, PasswordHashFunctionKind};
pub use procedure::{
    Curve, MnemonicLanguage, Procedure, ProcedureDto, Slip10DeriveInput, Slip10DeriveInputDto,
};
pub use registry::{
    create_client, destroy, execute_procedure, get_store_record, initialize, load_client,
    remove_secret, remove_store_record, save, save_secret, save_store_record, unsafe_get_secret,
    StrongholdCollection,
};
pub use secret::{wipe_bytes, SecretBuffer};
pub use session::{ClientState, Session, StoreEntry, VaultState};
pub use wire::{decode_bytes_dto, decode_location, encode_bytes_dto, encode_location, WireValue};
