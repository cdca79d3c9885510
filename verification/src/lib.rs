//! One-time-pad encryption of files.
//!
//! A file is split into two companion files of the same length: a freshly
//! drawn random pad, and the file's bytes combined with that pad by XOR.
//! Either companion alone is noise; XOR of the two gives the file back.
//!
//! The crate holds the transform on byte buffers ([`encrypt`], [`decrypt`])
//! and the decisions of the streaming pipeline ([`encrypt_file`],
//! [`decrypt_file`]). It performs no file I/O itself: the pipeline functions
//! say which request comes next, and the caller carries it out.

pub mod args;
pub mod config;
pub mod error;
pub mod files;
pub mod otp;
pub mod pipeline;
pub mod report;
pub mod runs;

pub use config::{Config, Slot};
pub use error::{Error, IoError};
pub use files::{extend_extension, Mode};
pub use otp::{decrypt, encrypt};
pub use pipeline::{
    chunk_buffer, decrypt_file, encrypt_file, Action, DecryptPhase, EncryptPhase, Outcome, Step,
};
pub use report::err_to_text;
