//! Party-local round functions of a threshold ECDSA protocol: distributed key
//! generation, signing by any `t + 1` of `n` parties, and additive key tweaking.

pub mod curve;
pub mod dkg_calls;
pub mod errors;
pub mod keygen;
pub mod material;
pub mod online;
pub mod party;
pub mod pipeline;
pub mod sign_calls;
pub mod signing;
pub mod tweak;
pub mod verdict;
