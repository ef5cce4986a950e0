//! Secure-boot identity derivation and debug-unlock authorization for a
//! hardware root of trust.
//!
//! Every interaction with hardware (key vault, crypto engines, mailbox, fuses,
//! DMA) is expressed as an action that the caller performs and an event that
//! it hands back, so the decisions made here are verified independently of
//! any particular platform:
//!
//! - `dice`: derivation of one DICE layer, with erasure of the secrets it
//!   consumes and sign-then-verify of its certificate;
//! - `x509`: subject serial numbers and key identifiers;
//! - `unlock`: the manufacturing and production debug-unlock protocols;
//! - `mailbox`: the debug-unlock wire formats;
//! - `cfi`: fault-injection countermeasures and secret hygiene.

pub mod auth_manifest;
pub mod bytes;
pub mod cfi;
pub mod dice;
pub mod error;
pub mod lms;
pub mod mailbox;
pub mod platform;
pub mod unlock;
pub mod x509;

pub use cfi::{cfi_branch, cfi_launder, secure_eq, zeroize_bytes};
pub use dice::{DiceAction, DiceInput, DiceOutput, DicePhase, LocalDevIdLayer};
pub use error::RomError;
pub use lms::{bytes_to_words_6, bytes_to_words_8, LmotsAlgorithmType, LmsAlgorithmType};
pub use platform::{Event, Lifecycle};
pub use unlock::{DebugUnlockFlow, UnlockAction, UnlockPhase};
pub use x509::{X509KeyIdAlgo, X509};
