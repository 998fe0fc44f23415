//! A feature-gated binary patch engine, and the command line of the dprun
//! session launcher.
//!
//! An executable image is treated as an opaque byte buffer. A catalog of named
//! features, each a list of byte-level injections at absolute offsets, is
//! resolved against a set of install options and the injections of every
//! enabled feature are written into a zero-padded copy of the image.
//!
//! The options of a dprun game session are collected by a builder and turned
//! into the words of the command that starts it.

pub mod applicator;
pub mod catalog;
pub mod dprun;
pub mod error;
pub mod feature;
pub mod guid;
pub mod hex;
pub mod install;
pub mod options;
pub mod text;

pub use applicator::apply_patch;
pub use catalog::{configure_features, get_available_features, Catalog};
pub use dprun::{run, DPAddressValue, DPRun, DPRunOptions, DPRunOptionsBuilder};
pub use error::PatchError;
pub use feature::{Feature, Injection};
pub use guid::GUID;
pub use hex::{decode_hex, decode_hex_bytes, encode_hex};
pub use install::{install_into, Correction, Installed, IMAGE_SIZE};
pub use options::InstallOptions;
