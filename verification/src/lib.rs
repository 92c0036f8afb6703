pub mod recip;
pub mod rng;
pub mod select;
pub mod uct;
