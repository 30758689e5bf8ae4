//! Relocation of barcoded container file batches from a flat holding area
//! into per-experiment-visit destination directories, together with a
//! companion matcher that pairs inspection images with their metadata XML
//! siblings.
//!
//! The crate holds the decision logic of the pipeline: barcode discovery,
//! visit-directory resolution with a legacy/current fallback, destination
//! provisioning policy, the per-file transfer transform, and the XML/image
//! pairing with identifier extraction. Filesystem enumeration, the metadata
//! store and the ACL tool are collaborators; their answers are handed to the
//! functions here as plain values.

pub mod config;
pub mod discovery;
pub mod inspection;
pub mod paths;
pub mod provision;
pub mod relocation;
pub mod transfer;
pub mod visit;
