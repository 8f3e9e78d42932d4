//! The decisions of a safe interface to Intrepid Control Systems' libicsneo.
//!
//! The native library is reached through foreign calls, which this crate does
//! not make. It holds what lies around them: the values that cross the
//! boundary, the buffers that the native functions write to, the reading of
//! what they report, and the texts built from it. A caller makes each native
//! call and hands what came back to the function named after it.

pub mod icsneo;
pub mod outcome;
pub mod report;
pub mod safe;
pub mod text;
pub mod types;
pub mod version;
