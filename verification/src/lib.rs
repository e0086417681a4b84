//! AWS Nitro evidence for certificate-bound attested TLS.
//!
//! An enclave proves over TLS what code it runs: its self-signed certificate
//! carries a document signed by the Nitro Security Module, and that document
//! names the certificate's key, the client's nonce and the application protocol.
//! This crate holds the rules on both sides of the handshake: how the server
//! issues such a certificate, and when a client accepts one.

pub mod binding;
pub mod bytes;
pub mod chain;
pub mod claims;
pub mod cose;
pub mod crypto;
pub mod document;
pub mod document_laws;
pub mod error;
pub mod handshake_laws;
pub mod issue;
pub mod laws;
pub mod policy;
pub mod server_verifier;
pub mod text;
pub mod time;
pub mod tls;
pub mod verify;
pub mod x509;

pub use binding::{binding_user_data, NitroBinding};
pub use document::AttestationDoc;
pub use error::NitroError;
pub use issue::{server_config_for_nonce, NitroAttester};
pub use policy::NitroPolicy;
pub use server_verifier::{NitroServerVerifier, ServerCertError, NITRO_ATTESTATION_OID};
pub use verify::verify_document;
