//! Running the encoder.

pub mod av1an;

pub use av1an::{build_av1an_command, encode_result, Av1anEncodeParams, EncodeError, ExitOutcome};
