//! The two quoters and the strategies built on them.

pub mod amm;
pub mod amm_laws;
pub mod amm_strategy;
pub mod bands;
pub mod bands_laws;
pub mod bands_strategy;
pub mod base_strategy;
