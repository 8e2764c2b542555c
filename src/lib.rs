//! Bounds-check elimination for a tape-and-cursor instruction language,
//! together with the machine state that the instructions run on.

pub mod analysis;
pub mod ir;
pub mod result;
pub mod state;
